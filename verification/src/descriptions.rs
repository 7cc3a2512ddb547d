//! The description demo: write the bot's full and short descriptions, with
//! and without a language code, and check that each read returns exactly the
//! text just written.
//!
//! The demo is a state machine over a fixed script.  The caller performs the
//! remote call that the current step names and reports the reply; the machine
//! advances, or records why the run stopped.

use vstd::prelude::*;

use crate::outcome::Failure;

verus! {

/// Which of the two description texts a step concerns.
#[derive(Clone, Copy, PartialEq, Eq, Structural, Debug)]
pub enum TextKind {
    Full,
    Short,
}

/// One step of the script: write a text, or read the text back and check it
/// against the value that was written for the same kind and language code.
pub enum ScriptStep {
    Write { kind: TextKind, language_code: Option<String>, text: String },
    ReadBack { kind: TextKind, language_code: Option<String>, expected: String },
}

/// The mathematical value of a script step.
pub struct StepModel {
    pub kind: TextKind,
    pub locale: Option<Seq<char>>,
    pub text: Seq<char>,
    pub is_set: bool,
}

/// The language code as a mathematical value.
pub open spec fn locale_view(l: Option<String>) -> Option<Seq<char>> {
    match l {
        Option::Some(s) => Option::Some(s@),
        Option::None => Option::None,
    }
}

impl View for ScriptStep {
    type V = StepModel;

    open spec fn view(&self) -> StepModel {
        match self {
            ScriptStep::Write { kind, language_code, text } => StepModel {
                kind: *kind,
                locale: locale_view(*language_code),
                text: text@,
                is_set: true,
            },
            ScriptStep::ReadBack { kind, language_code, expected } => StepModel {
                kind: *kind,
                locale: locale_view(*language_code),
                text: expected@,
                is_set: false,
            },
        }
    }
}

/// The views of a sequence of steps.
pub open spec fn steps_view(s: Seq<ScriptStep>) -> Seq<StepModel> {
    s.map_values(|st: ScriptStep| st@)
}

/// A model of the remote service's description storage: for each kind and
/// language code, the text last written.  An entry never written reads back
/// as the empty text.
pub struct ServiceModel {
    pub full: Map<Option<Seq<char>>, Seq<char>>,
    pub short: Map<Option<Seq<char>>, Seq<char>>,
}

/// The service before anything was written.
pub open spec fn empty_service() -> ServiceModel {
    ServiceModel { full: Map::empty(), short: Map::empty() }
}

/// What a faithful service returns for a read of the given kind and locale.
pub open spec fn model_lookup(m: ServiceModel, kind: TextKind, locale: Option<Seq<char>>) -> Seq<
    char,
> {
    let table = match kind {
        TextKind::Full => m.full,
        TextKind::Short => m.short,
    };
    if table.contains_key(locale) {
        table[locale]
    } else {
        Seq::empty()
    }
}

/// The service after a write: last write wins, per kind and locale.
pub open spec fn model_set(
    m: ServiceModel,
    kind: TextKind,
    locale: Option<Seq<char>>,
    text: Seq<char>,
) -> ServiceModel {
    match kind {
        TextKind::Full => ServiceModel { full: m.full.insert(locale, text), short: m.short },
        TextKind::Short => ServiceModel { full: m.full, short: m.short.insert(locale, text) },
    }
}

/// The service after one step: a write updates it, a read leaves it as it is.
pub open spec fn model_after_step(m: ServiceModel, step: StepModel) -> ServiceModel {
    if step.is_set {
        model_set(m, step.kind, step.locale, step.text)
    } else {
        m
    }
}

/// Round-trip success of a script against a faithful service: starting from
/// service state `m`, every read of the script returns exactly the text the
/// check expects.
pub open spec fn script_passes_from(m: ServiceModel, steps: Seq<StepModel>) -> bool
    decreases steps.len(),
{
    steps.len() == 0 || {
        let rest = script_passes_from(model_after_step(m, steps[0]), steps.skip(1));
        if steps[0].is_set {
            rest
        } else {
            model_lookup(m, steps[0].kind, steps[0].locale) == steps[0].text && rest
        }
    }
}

/// The state machine that drives the demo.
pub struct DescriptionsDemo {
    /// The fixed script, in order.
    pub script: Vec<ScriptStep>,
    /// How many steps completed.
    pub pos: usize,
    /// Why the run stopped, if it did.
    pub failure: Option<Failure>,
}

impl DescriptionsDemo {
    pub open spec fn wf(self) -> bool {
        self.pos <= self.script@.len()
    }

    pub open spec fn steps(self) -> Seq<StepModel> {
        steps_view(self.script@)
    }

    /// The run is neither finished nor stopped.
    pub open spec fn in_progress(self) -> bool {
        self.pos < self.script@.len() && self.failure is None
    }

    pub open spec fn current(self) -> StepModel {
        self.steps()[self.pos as int]
    }

    /// The step the caller must perform next, or nothing when the run is
    /// finished or stopped.
    pub fn next_step(&self) -> (r: Option<&ScriptStep>)
        requires
            self.wf(),
        ensures
            match r {
                Option::Some(s) => self.in_progress() && s@ == self.current(),
                Option::None => !self.in_progress(),
            },
    {
        if self.failure.is_some() {
            return None;
        }
        if self.pos < self.script.len() {
            Some(&self.script[self.pos])
        } else {
            None
        }
    }

    /// The service acknowledged the write of the current `Write` step.
    pub fn on_set_done(&mut self)
        requires
            old(self).wf(),
            old(self).in_progress(),
            old(self).current().is_set,
        ensures
            final(self).script == old(self).script,
            final(self).pos == old(self).pos + 1,
            final(self).failure is None,
    {
        let _len: usize = self.script.len();
        self.pos = self.pos + 1;
    }

    /// The service answered the read of the current `ReadBack` step with
    /// `text`.  The run advances exactly when the text equals the expected
    /// one, and otherwise stops with a mismatch that records both.
    pub fn on_got(&mut self, text: String)
        requires
            old(self).wf(),
            old(self).in_progress(),
            !old(self).current().is_set,
        ensures
            final(self).script == old(self).script,
            text@ == old(self).current().text ==> final(self).pos == old(self).pos + 1
                && final(self).failure is None,
            text@ != old(self).current().text ==> final(self).pos == old(self).pos,
            text@ != old(self).current().text ==> (match final(self).failure {
                Option::Some(Failure::Mismatch { expected, actual }) => expected@ == old(self).current().text
                    && actual@ == text@,
                _ => false,
            }),
    {
        let expected_text: String = match &self.script[self.pos] {
            ScriptStep::ReadBack { expected, .. } => expected.clone(),
            ScriptStep::Write { .. } => {
                proof {
                    assert(false);
                }
                text.clone()
            },
        };
        let _len: usize = self.script.len();
        if text == expected_text {
            self.pos = self.pos + 1;
        } else {
            self.failure = Some(Failure::Mismatch { expected: expected_text, actual: text });
        }
    }

    /// The remote call for the current step failed: the run stops and keeps
    /// the message.
    pub fn on_api_error(&mut self, message: String)
        requires
            old(self).wf(),
            old(self).in_progress(),
        ensures
            final(self).script == old(self).script,
            final(self).pos == old(self).pos,
            match final(self).failure {
                Option::Some(Failure::Api { message: m }) => m@ == message@,
                _ => false,
            },
    {
        self.failure = Some(Failure::Api { message });
    }

    /// The run completed its whole script with every check satisfied.
    pub fn passed(&self) -> (r: bool)
        ensures
            r == (self.pos == self.script@.len() && self.failure is None),
    {
        self.pos == self.script.len() && self.failure.is_none()
    }
}

/// A step that writes `text` for the given kind and locale.
pub open spec fn set_step(kind: TextKind, locale: Option<Seq<char>>, text: Seq<char>) -> StepModel {
    StepModel { kind, locale, text, is_set: true }
}

/// A step that reads the text of the given kind and locale back and checks
/// it against `text`.
pub open spec fn verify_step(
    kind: TextKind,
    locale: Option<Seq<char>>,
    text: Seq<char>,
) -> StepModel {
    StepModel { kind, locale, text, is_set: false }
}

/// The text the demo writes where no language code is given.
pub open spec fn demo_text() -> Seq<char> {
    "A snail walks into a bar one day.."@
}

/// The text the demo writes for the Russian localization.
pub open spec fn demo_text_ru() -> Seq<char> {
    "Заходит как-то улитка в бар.."@
}

/// The one language code the demo localizes for.
pub open spec fn ru_locale() -> Option<Seq<char>> {
    Option::Some("ru"@)
}

/// The demo's script: for each kind and each of the two language codes,
/// write a text and at once read it back.
pub open spec fn description_script() -> Seq<StepModel> {
    seq![
        set_step(TextKind::Full, Option::None, demo_text()),
        verify_step(TextKind::Full, Option::None, demo_text()),
        set_step(TextKind::Short, Option::None, demo_text()),
        verify_step(TextKind::Short, Option::None, demo_text()),
        set_step(TextKind::Full, ru_locale(), demo_text_ru()),
        verify_step(TextKind::Full, ru_locale(), demo_text_ru()),
        set_step(TextKind::Short, ru_locale(), demo_text_ru()),
        verify_step(TextKind::Short, ru_locale(), demo_text_ru()),
    ]
}

impl DescriptionsDemo {
    /// A fresh demo, at the start of the full script.
    pub fn new() -> (r: Self)
        ensures
            r.wf(),
            r.in_progress(),
            r.pos == 0,
            r.failure is None,
            r.steps() == description_script(),
    {
        let mut script: Vec<ScriptStep> = Vec::new();
        let text = "A snail walks into a bar one day..";
        let text_ru = "Заходит как-то улитка в бар..";
        script.push(
            ScriptStep::Write {
                kind: TextKind::Full,
                language_code: None,
                text: String::from_str(text),
            },
        );
        script.push(
            ScriptStep::ReadBack {
                kind: TextKind::Full,
                language_code: None,
                expected: String::from_str(text),
            },
        );
        script.push(
            ScriptStep::Write {
                kind: TextKind::Short,
                language_code: None,
                text: String::from_str(text),
            },
        );
        script.push(
            ScriptStep::ReadBack {
                kind: TextKind::Short,
                language_code: None,
                expected: String::from_str(text),
            },
        );
        script.push(
            ScriptStep::Write {
                kind: TextKind::Full,
                language_code: Some(String::from_str("ru")),
                text: String::from_str(text_ru),
            },
        );
        script.push(
            ScriptStep::ReadBack {
                kind: TextKind::Full,
                language_code: Some(String::from_str("ru")),
                expected: String::from_str(text_ru),
            },
        );
        script.push(
            ScriptStep::Write {
                kind: TextKind::Short,
                language_code: Some(String::from_str("ru")),
                text: String::from_str(text_ru),
            },
        );
        script.push(
            ScriptStep::ReadBack {
                kind: TextKind::Short,
                language_code: Some(String::from_str("ru")),
                expected: String::from_str(text_ru),
            },
        );
        proof {
            assert(steps_view(script@) =~= description_script());
        }
        DescriptionsDemo { script, pos: 0, failure: None }
    }
}

/// Round-trip law: a write followed at once by a read-back of the same kind
/// and locale always succeeds against a faithful service, whatever was
/// stored before; the rest of the script then runs from the updated service.
pub proof fn lemma_set_then_verify(
    m: ServiceModel,
    kind: TextKind,
    locale: Option<Seq<char>>,
    text: Seq<char>,
    rest: Seq<StepModel>,
)
    ensures
        script_passes_from(m, seq![set_step(kind, locale, text), verify_step(kind, locale, text)] + rest)
            == script_passes_from(model_set(m, kind, locale, text), rest),
{
    let s0 = set_step(kind, locale, text);
    let s1 = verify_step(kind, locale, text);
    let s = seq![s0, s1] + rest;
    let m1 = model_set(m, kind, locale, text);
    assert(s[0] == s0);
    assert(s.skip(1) =~= seq![s1] + rest);
    assert(model_after_step(m, s0) == m1);
    assert(model_lookup(m1, kind, locale) == text);
    assert((seq![s1] + rest).skip(1) =~= rest);
    assert(model_after_step(m1, s1) == m1);
    assert(script_passes_from(m, s) == script_passes_from(m1, seq![s1] + rest));
    assert(script_passes_from(m1, seq![s1] + rest) == script_passes_from(m1, rest));
}

/// The whole demo script passes against a faithful service that starts
/// empty: every text the demo writes is read back unchanged.
pub proof fn lemma_description_script_passes()
    ensures
        script_passes_from(empty_service(), description_script()),
{
    let t = demo_text();
    let tr = demo_text_ru();
    let m0 = empty_service();
    let m1 = model_set(m0, TextKind::Full, Option::None, t);
    let m2 = model_set(m1, TextKind::Short, Option::None, t);
    let m3 = model_set(m2, TextKind::Full, ru_locale(), tr);
    let m4 = model_set(m3, TextKind::Short, ru_locale(), tr);
    let rest6 = seq![
        set_step(TextKind::Short, Option::None, t),
        verify_step(TextKind::Short, Option::None, t),
        set_step(TextKind::Full, ru_locale(), tr),
        verify_step(TextKind::Full, ru_locale(), tr),
        set_step(TextKind::Short, ru_locale(), tr),
        verify_step(TextKind::Short, ru_locale(), tr),
    ];
    let rest4 = seq![
        set_step(TextKind::Full, ru_locale(), tr),
        verify_step(TextKind::Full, ru_locale(), tr),
        set_step(TextKind::Short, ru_locale(), tr),
        verify_step(TextKind::Short, ru_locale(), tr),
    ];
    let rest2 = seq![
        set_step(TextKind::Short, ru_locale(), tr),
        verify_step(TextKind::Short, ru_locale(), tr),
    ];
    let rest0 = Seq::<StepModel>::empty();
    assert(description_script() =~= seq![
        set_step(TextKind::Full, Option::None, t),
        verify_step(TextKind::Full, Option::None, t),
    ] + rest6);
    lemma_set_then_verify(m0, TextKind::Full, Option::None, t, rest6);
    assert(rest6 =~= seq![
        set_step(TextKind::Short, Option::None, t),
        verify_step(TextKind::Short, Option::None, t),
    ] + rest4);
    lemma_set_then_verify(m1, TextKind::Short, Option::None, t, rest4);
    assert(rest4 =~= seq![
        set_step(TextKind::Full, ru_locale(), tr),
        verify_step(TextKind::Full, ru_locale(), tr),
    ] + rest2);
    lemma_set_then_verify(m2, TextKind::Full, ru_locale(), tr, rest2);
    assert(rest2 =~= seq![
        set_step(TextKind::Short, ru_locale(), tr),
        verify_step(TextKind::Short, ru_locale(), tr),
    ] + rest0);
    lemma_set_then_verify(m3, TextKind::Short, ru_locale(), tr, rest0);
    assert(script_passes_from(m4, rest0));
}

} // verus!
