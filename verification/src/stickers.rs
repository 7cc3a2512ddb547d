//! The sticker-set demo: create a sticker set for the bot, edit it, check
//! that the edited title is read back unchanged, and add one more sticker.
//!
//! As with the description demo, the remote transport stays outside this
//! library: a state machine names the next remote call and judges each
//! reply.

use vstd::prelude::*;

use crate::outcome::Failure;

verus! {

/// One sticker as handed to the sticker-set calls: an uploaded file handle
/// with its emoji and its search keywords.  The demo never uses mask
/// positions, so they are not modeled.
pub struct StickerInput {
    pub file_id: String,
    pub emoji_list: Vec<String>,
    pub keywords: Vec<String>,
}

/// The mathematical value of a `StickerInput`.
pub struct StickerInputModel {
    pub file_id: Seq<char>,
    pub emoji_list: Seq<Seq<char>>,
    pub keywords: Seq<Seq<char>>,
}

/// The views of a sequence of strings.
pub open spec fn str_views(s: Seq<String>) -> Seq<Seq<char>> {
    s.map_values(|x: String| x@)
}

impl View for StickerInput {
    type V = StickerInputModel;

    open spec fn view(&self) -> StickerInputModel {
        StickerInputModel {
            file_id: self.file_id@,
            emoji_list: str_views(self.emoji_list@),
            keywords: str_views(self.keywords@),
        }
    }
}

/// The name of the demo's sticker set: a fixed tag followed by the owning
/// bot's username, as the remote service requires.
pub open spec fn spec_sticker_set_name(username: Seq<char>) -> Seq<char> {
    "tba66_by_"@ + username
}

/// Derives the demo's sticker-set name from the bot's username.
pub fn sticker_set_name(username: &str) -> (r: String)
    ensures
        r@ == spec_sticker_set_name(username@),
{
    let mut s = String::from_str("tba66_by_");
    s.append(username);
    s
}

/// The first sticker the demo registers.
pub open spec fn first_sticker_model(file_id: Seq<char>) -> StickerInputModel {
    StickerInputModel {
        file_id: file_id,
        emoji_list: seq!["🦀"@, "😄"@],
        keywords: seq!["teloxide"@, "f"@, "core"@],
    }
}

/// The second sticker the demo registers.
pub open spec fn second_sticker_model(file_id: Seq<char>) -> StickerInputModel {
    StickerInputModel {
        file_id: file_id,
        emoji_list: seq!["🦀"@, "🥳"@],
        keywords: seq!["teloxide"@, "second"@, "main"@],
    }
}

/// The sticker the demo adds to the set at the end.
pub open spec fn third_sticker_model(file_id: Seq<char>) -> StickerInputModel {
    StickerInputModel {
        file_id: file_id,
        emoji_list: seq!["😄"@],
        keywords: Seq::<Seq<char>>::empty(),
    }
}

/// Builds the two stickers of the initial set from the two uploaded file
/// handles, each with its fixed emoji and keywords.
pub fn initial_stickers(first_id: String, second_id: String) -> (r: Vec<StickerInput>)
    ensures
        r@.len() == 2,
        r@[0]@ == first_sticker_model(first_id@),
        r@[1]@ == second_sticker_model(second_id@),
{
    let mut emoji1: Vec<String> = Vec::new();
    emoji1.push(String::from_str("🦀"));
    emoji1.push(String::from_str("😄"));
    let mut kw1: Vec<String> = Vec::new();
    kw1.push(String::from_str("teloxide"));
    kw1.push(String::from_str("f"));
    kw1.push(String::from_str("core"));
    let mut emoji2: Vec<String> = Vec::new();
    emoji2.push(String::from_str("🦀"));
    emoji2.push(String::from_str("🥳"));
    let mut kw2: Vec<String> = Vec::new();
    kw2.push(String::from_str("teloxide"));
    kw2.push(String::from_str("second"));
    kw2.push(String::from_str("main"));
    let fst = StickerInput { file_id: first_id, emoji_list: emoji1, keywords: kw1 };
    let snd = StickerInput { file_id: second_id, emoji_list: emoji2, keywords: kw2 };
    let mut r: Vec<StickerInput> = Vec::new();
    proof {
        assert(fst@.emoji_list =~= first_sticker_model(fst.file_id@).emoji_list);
        assert(fst@.keywords =~= first_sticker_model(fst.file_id@).keywords);
        assert(snd@.emoji_list =~= second_sticker_model(snd.file_id@).emoji_list);
        assert(snd@.keywords =~= second_sticker_model(snd.file_id@).keywords);
    }
    r.push(fst);
    r.push(snd);
    r
}

/// Builds the sticker the demo adds at the end from its uploaded file
/// handle.
pub fn added_sticker(file_id: String) -> (r: StickerInput)
    ensures
        r@ == third_sticker_model(file_id@),
{
    let mut emoji: Vec<String> = Vec::new();
    emoji.push(String::from_str("😄"));
    let kw: Vec<String> = Vec::new();
    let r = StickerInput { file_id: file_id, emoji_list: emoji, keywords: kw };
    proof {
        assert(r@.emoji_list =~= third_sticker_model(r.file_id@).emoji_list);
        assert(r@.keywords =~= third_sticker_model(r.file_id@).keywords);
    }
    r
}

/// The image the first sticker is uploaded from.
pub open spec fn first_upload_path() -> Seq<char> {
    "data/teloxide-core-logo.webp"@
}

/// The image the second sticker is uploaded from.
pub open spec fn second_upload_path() -> Seq<char> {
    "data/teloxide-logo.webp"@
}

/// The image the added sticker is uploaded from.
pub open spec fn third_upload_path() -> Seq<char> {
    "data/teloxide-logo-blur.webp"@
}

/// The title the sticker set is created with.
pub open spec fn initial_set_title() -> Seq<char> {
    "Teloxide TBA6.6 TEST"@
}

/// The title the demo renames the set to, and then expects to read back.
pub open spec fn new_set_title() -> Seq<char> {
    "New sticker set title"@
}

/// The emoji list the demo writes onto the first sticker of the set.
pub open spec fn edited_emoji() -> Seq<Seq<char>> {
    seq!["🤔"@]
}

/// The keywords the demo writes onto the first sticker of the set.
pub open spec fn edited_keywords() -> Seq<Seq<char>> {
    seq!["core"@]
}

/// A remote call the demo asks its caller to perform.
pub enum StickerAction {
    GetMe,
    DeleteStickerSet { name: String },
    UploadStickerFile { path: String },
    CreateStickerSet { name: String, title: String, stickers: Vec<StickerInput> },
    GetStickerSet { name: String },
    SetStickerSetTitle { name: String, title: String },
    SetStickerEmojiList { sticker_file_id: String, emoji_list: Vec<String> },
    SetStickerKeywords { sticker_file_id: String, keywords: Vec<String> },
    AddStickerToSet { name: String, sticker: StickerInput },
}

/// The mathematical value of a `StickerAction`.
pub enum ActionModel {
    GetMe,
    DeleteSet { name: Seq<char> },
    Upload { path: Seq<char> },
    CreateSet { name: Seq<char>, title: Seq<char>, stickers: Seq<StickerInputModel> },
    FetchSet { name: Seq<char> },
    SetTitle { name: Seq<char>, title: Seq<char> },
    SetEmojiList { sticker_file_id: Seq<char>, emoji_list: Seq<Seq<char>> },
    SetKeywords { sticker_file_id: Seq<char>, keywords: Seq<Seq<char>> },
    AddSticker { name: Seq<char>, sticker: StickerInputModel },
}

impl View for StickerAction {
    type V = ActionModel;

    open spec fn view(&self) -> ActionModel {
        match self {
            StickerAction::GetMe => ActionModel::GetMe,
            StickerAction::DeleteStickerSet { name } => ActionModel::DeleteSet { name: name@ },
            StickerAction::UploadStickerFile { path } => ActionModel::Upload { path: path@ },
            StickerAction::CreateStickerSet { name, title, stickers } => ActionModel::CreateSet {
                name: name@,
                title: title@,
                stickers: stickers@.map_values(|s: StickerInput| s@),
            },
            StickerAction::GetStickerSet { name } => ActionModel::FetchSet { name: name@ },
            StickerAction::SetStickerSetTitle { name, title } => ActionModel::SetTitle {
                name: name@,
                title: title@,
            },
            StickerAction::SetStickerEmojiList { sticker_file_id, emoji_list } => ActionModel::SetEmojiList {
                sticker_file_id: sticker_file_id@,
                emoji_list: str_views(emoji_list@),
            },
            StickerAction::SetStickerKeywords { sticker_file_id, keywords } => ActionModel::SetKeywords {
                sticker_file_id: sticker_file_id@,
                keywords: str_views(keywords@),
            },
            StickerAction::AddStickerToSet { name, sticker } => ActionModel::AddSticker {
                name: name@,
                sticker: sticker@,
            },
        }
    }
}

/// Where the sticker demo stands in its fixed sequence of remote calls.
#[derive(Clone, Copy, PartialEq, Eq, Structural, Debug)]
pub enum Phase {
    /// Asking the service who the bot is, for the set name.
    FetchingMe,
    /// Deleting a set left over from an earlier run; failure is tolerated.
    Deleting,
    /// Uploading the image of the first sticker.
    UploadingFirst,
    /// Uploading the image of the second sticker.
    UploadingSecond,
    /// Creating the set with the two uploaded stickers.
    Creating,
    /// Reading the set back, for the handle of its first sticker.
    FetchingSet,
    /// Renaming the set.
    SettingTitle,
    /// Writing a new emoji list onto the first sticker.
    SettingEmojiList,
    /// Writing new keywords onto the first sticker.
    SettingKeywords,
    /// Reading the set back and checking the renamed title.
    CheckingTitle,
    /// Uploading the image of the sticker to add.
    UploadingThird,
    /// Adding the third sticker to the set.
    AddingSticker,
    /// Every call completed and the title check passed.
    Done,
    /// The run stopped; `failure` says why.
    Stopped,
}

/// The state machine that drives the sticker-set demo.  When `create_first`
/// is unset the demo skips deletion, uploads and creation, and only edits an
/// existing set.
pub struct StickerSetDemo {
    pub phase: Phase,
    pub create_first: bool,
    pub set_name: Option<String>,
    pub first_id: Option<String>,
    pub second_id: Option<String>,
    pub third_id: Option<String>,
    pub edit_sticker_id: Option<String>,
    pub failure: Option<Failure>,
}

impl StickerSetDemo {
    /// Each phase has on hand what its remote call needs.
    pub open spec fn wf(self) -> bool {
        &&& (self.failure is Some <==> self.phase is Stopped)
        &&& match self.phase {
            Phase::FetchingMe => true,
            Phase::Deleting => self.set_name is Some,
            Phase::UploadingFirst => self.set_name is Some,
            Phase::UploadingSecond => self.set_name is Some && self.first_id is Some,
            Phase::Creating => self.set_name is Some && self.first_id is Some
                && self.second_id is Some,
            Phase::FetchingSet => self.set_name is Some,
            Phase::SettingTitle => self.set_name is Some && self.edit_sticker_id is Some,
            Phase::SettingEmojiList => self.set_name is Some && self.edit_sticker_id is Some,
            Phase::SettingKeywords => self.set_name is Some && self.edit_sticker_id is Some,
            Phase::CheckingTitle => self.set_name is Some,
            Phase::UploadingThird => self.set_name is Some,
            Phase::AddingSticker => self.set_name is Some && self.third_id is Some,
            Phase::Done => true,
            Phase::Stopped => true,
        }
    }

    /// A fresh demo.  With `create_first` the run deletes, uploads and
    /// creates before editing; without it the run only edits.
    pub fn new(create_first: bool) -> (r: Self)
        ensures
            r.wf(),
            r.phase is FetchingMe,
            r.create_first == create_first,
            r.failure is None,
    {
        StickerSetDemo {
            phase: Phase::FetchingMe,
            create_first,
            set_name: None,
            first_id: None,
            second_id: None,
            third_id: None,
            edit_sticker_id: None,
            failure: None,
        }
    }

    /// Every call completed and the title check passed.
    pub fn passed(&self) -> (r: bool)
        ensures
            r == (self.phase is Done),
    {
        self.phase == Phase::Done
    }
}

impl StickerSetDemo {
    /// The remote call the caller must perform next, or nothing when the
    /// run is finished or stopped.
    pub fn next_action(&self) -> (r: Option<StickerAction>)
        requires
            self.wf(),
        ensures
            match self.phase {
                Phase::FetchingMe => r matches Some(a) && a@ == ActionModel::GetMe,
                Phase::Deleting => r matches Some(a) && a@ == (ActionModel::DeleteSet {
                    name: (self.set_name->Some_0)@,
                }),
                Phase::UploadingFirst => r matches Some(a) && a@ == (ActionModel::Upload {
                    path: first_upload_path(),
                }),
                Phase::UploadingSecond => r matches Some(a) && a@ == (ActionModel::Upload {
                    path: second_upload_path(),
                }),
                Phase::Creating => r matches Some(a) && a@ == (ActionModel::CreateSet {
                    name: (self.set_name->Some_0)@,
                    title: initial_set_title(),
                    stickers: seq![
                        first_sticker_model((self.first_id->Some_0)@),
                        second_sticker_model((self.second_id->Some_0)@),
                    ],
                }),
                Phase::FetchingSet => r matches Some(a) && a@ == (ActionModel::FetchSet {
                    name: (self.set_name->Some_0)@,
                }),
                Phase::SettingTitle => r matches Some(a) && a@ == (ActionModel::SetTitle {
                    name: (self.set_name->Some_0)@,
                    title: new_set_title(),
                }),
                Phase::SettingEmojiList => r matches Some(a) && a@ == (ActionModel::SetEmojiList {
                    sticker_file_id: (self.edit_sticker_id->Some_0)@,
                    emoji_list: edited_emoji(),
                }),
                Phase::SettingKeywords => r matches Some(a) && a@ == (ActionModel::SetKeywords {
                    sticker_file_id: (self.edit_sticker_id->Some_0)@,
                    keywords: edited_keywords(),
                }),
                Phase::CheckingTitle => r matches Some(a) && a@ == (ActionModel::FetchSet {
                    name: (self.set_name->Some_0)@,
                }),
                Phase::UploadingThird => r matches Some(a) && a@ == (ActionModel::Upload {
                    path: third_upload_path(),
                }),
                Phase::AddingSticker => r matches Some(a) && a@ == (ActionModel::AddSticker {
                    name: (self.set_name->Some_0)@,
                    sticker: third_sticker_model((self.third_id->Some_0)@),
                }),
                Phase::Done => r is None,
                Phase::Stopped => r is None,
            },
    {
        match self.phase {
            Phase::FetchingMe => Some(StickerAction::GetMe),
            Phase::Deleting => Some(
                StickerAction::DeleteStickerSet { name: clone_some(&self.set_name) },
            ),
            Phase::UploadingFirst => Some(
                StickerAction::UploadStickerFile {
                    path: String::from_str("data/teloxide-core-logo.webp"),
                },
            ),
            Phase::UploadingSecond => Some(
                StickerAction::UploadStickerFile {
                    path: String::from_str("data/teloxide-logo.webp"),
                },
            ),
            Phase::Creating => {
                let stickers = initial_stickers(
                    clone_some(&self.first_id),
                    clone_some(&self.second_id),
                );
                let a = StickerAction::CreateStickerSet {
                    name: clone_some(&self.set_name),
                    title: String::from_str("Teloxide TBA6.6 TEST"),
                    stickers,
                };
                proof {
                    assert(a@->CreateSet_stickers =~= seq![
                        first_sticker_model((self.first_id->Some_0)@),
                        second_sticker_model((self.second_id->Some_0)@),
                    ]);
                }
                Some(a)
            },
            Phase::FetchingSet => Some(
                StickerAction::GetStickerSet { name: clone_some(&self.set_name) },
            ),
            Phase::SettingTitle => Some(
                StickerAction::SetStickerSetTitle {
                    name: clone_some(&self.set_name),
                    title: String::from_str("New sticker set title"),
                },
            ),
            Phase::SettingEmojiList => {
                let mut emoji: Vec<String> = Vec::new();
                emoji.push(String::from_str("🤔"));
                let a = StickerAction::SetStickerEmojiList {
                    sticker_file_id: clone_some(&self.edit_sticker_id),
                    emoji_list: emoji,
                };
                proof {
                    assert(a@->SetEmojiList_emoji_list =~= edited_emoji());
                }
                Some(a)
            },
            Phase::SettingKeywords => {
                let mut kw: Vec<String> = Vec::new();
                kw.push(String::from_str("core"));
                let a = StickerAction::SetStickerKeywords {
                    sticker_file_id: clone_some(&self.edit_sticker_id),
                    keywords: kw,
                };
                proof {
                    assert(a@->SetKeywords_keywords =~= edited_keywords());
                }
                Some(a)
            },
            Phase::CheckingTitle => Some(
                StickerAction::GetStickerSet { name: clone_some(&self.set_name) },
            ),
            Phase::UploadingThird => Some(
                StickerAction::UploadStickerFile {
                    path: String::from_str("data/teloxide-logo-blur.webp"),
                },
            ),
            Phase::AddingSticker => Some(
                StickerAction::AddStickerToSet {
                    name: clone_some(&self.set_name),
                    sticker: added_sticker(clone_some(&self.third_id)),
                },
            ),
            Phase::Done => None,
            Phase::Stopped => None,
        }
    }
}

impl StickerSetDemo {
    /// The service answered `GetMe` with the bot's username.  With a
    /// username the run derives the set name and goes on to deletion (or,
    /// when only editing, straight to fetching the set); a bot without a
    /// username stops the run.
    pub fn on_me(&mut self, username: Option<String>)
        requires
            old(self).wf(),
            old(self).phase is FetchingMe,
        ensures
            final(self).wf(),
            final(self).create_first == old(self).create_first,
            match username {
                Option::Some(u) => {
                    &&& final(self).phase == (if old(self).create_first {
                        Phase::Deleting
                    } else {
                        Phase::FetchingSet
                    })
                    &&& final(self).set_name matches Some(n) && n@ == spec_sticker_set_name(u@)
                    &&& final(self).failure is None
                },
                Option::None => {
                    &&& final(self).phase is Stopped
                    &&& final(self).failure matches Some(Failure::Missing { .. })
                },
            },
    {
        match username {
            Option::Some(u) => {
                let name = sticker_set_name(u.as_str());
                self.set_name = Some(name);
                self.phase = if self.create_first {
                    Phase::Deleting
                } else {
                    Phase::FetchingSet
                };
            },
            Option::None => {
                self.failure = Some(
                    Failure::Missing { what: String::from_str("the bot has no username") },
                );
                self.phase = Phase::Stopped;
            },
        }
    }

    /// The reply to the tolerated deletion of a leftover set: whether the
    /// delete succeeded or failed, the run goes on to the uploads.
    pub fn on_delete_result(&mut self, _deleted: bool)
        requires
            old(self).wf(),
            old(self).phase is Deleting,
        ensures
            final(self).wf(),
            final(self).phase is UploadingFirst,
            final(self).set_name == old(self).set_name,
            final(self).create_first == old(self).create_first,
            final(self).failure is None,
    {
        self.phase = Phase::UploadingFirst;
    }

    /// The service answered an upload with the handle of the stored file.
    pub fn on_uploaded(&mut self, file_id: String)
        requires
            old(self).wf(),
            old(self).phase is UploadingFirst || old(self).phase is UploadingSecond || old(self).phase is UploadingThird,
        ensures
            final(self).wf(),
            final(self).set_name == old(self).set_name,
            final(self).create_first == old(self).create_first,
            final(self).edit_sticker_id == old(self).edit_sticker_id,
            final(self).failure is None,
            old(self).phase is UploadingFirst ==> final(self).phase is UploadingSecond && (
            final(self).first_id matches Some(i) && i@ == file_id@) && final(self).second_id
                == old(self).second_id && final(self).third_id == old(self).third_id,
            old(self).phase is UploadingSecond ==> final(self).phase is Creating && (final(self).second_id matches Some(i) && i@ == file_id@) && final(self).first_id == old(self).first_id && final(self).third_id == old(self).third_id,
            old(self).phase is UploadingThird ==> final(self).phase is AddingSticker && (final(self).third_id matches Some(i) && i@ == file_id@) && final(self).first_id == old(self).first_id && final(self).second_id == old(self).second_id,
    {
        match self.phase {
            Phase::UploadingFirst => {
                self.first_id = Some(file_id);
                self.phase = Phase::UploadingSecond;
            },
            Phase::UploadingSecond => {
                self.second_id = Some(file_id);
                self.phase = Phase::Creating;
            },
            _ => {
                self.third_id = Some(file_id);
                self.phase = Phase::AddingSticker;
            },
        }
    }

    /// The service acknowledged the call of the current phase: creation,
    /// one of the three edits, or the final addition.
    pub fn on_ack(&mut self)
        requires
            old(self).wf(),
            old(self).phase is Creating || old(self).phase is SettingTitle || old(self).phase is SettingEmojiList || old(self).phase is SettingKeywords || old(self).phase is AddingSticker,
        ensures
            final(self).wf(),
            final(self).set_name == old(self).set_name,
            final(self).create_first == old(self).create_first,
            final(self).first_id == old(self).first_id,
            final(self).second_id == old(self).second_id,
            final(self).third_id == old(self).third_id,
            final(self).edit_sticker_id == old(self).edit_sticker_id,
            final(self).failure is None,
            old(self).phase is Creating ==> final(self).phase is FetchingSet,
            old(self).phase is SettingTitle ==> final(self).phase is SettingEmojiList,
            old(self).phase is SettingEmojiList ==> final(self).phase is SettingKeywords,
            old(self).phase is SettingKeywords ==> final(self).phase is CheckingTitle,
            old(self).phase is AddingSticker ==> final(self).phase is Done,
    {
        match self.phase {
            Phase::Creating => {
                self.phase = Phase::FetchingSet;
            },
            Phase::SettingTitle => {
                self.phase = Phase::SettingEmojiList;
            },
            Phase::SettingEmojiList => {
                self.phase = Phase::SettingKeywords;
            },
            Phase::SettingKeywords => {
                self.phase = Phase::CheckingTitle;
            },
            _ => {
                self.phase = Phase::Done;
            },
        }
    }

    /// The service answered a fetch of the set with its title and, if the
    /// set is not empty, the handle of its first sticker.  While fetching,
    /// the run needs that handle to edit the sticker and stops without it;
    /// while checking, the run checks the title against the one it wrote.
    pub fn on_set_info(&mut self, title: String, first_sticker_file_id: Option<String>)
        requires
            old(self).wf(),
            old(self).phase is FetchingSet || old(self).phase is CheckingTitle,
        ensures
            final(self).wf(),
            final(self).set_name == old(self).set_name,
            final(self).create_first == old(self).create_first,
            final(self).first_id == old(self).first_id,
            final(self).second_id == old(self).second_id,
            final(self).third_id == old(self).third_id,
            old(self).phase is FetchingSet ==> match first_sticker_file_id {
                Option::Some(id) => final(self).phase is SettingTitle && (final(self).edit_sticker_id matches Some(e) && e@ == id@) && final(self).failure is None,
                Option::None => final(self).phase is Stopped && final(self).failure matches Some(Failure::Missing { .. }),
            },
            old(self).phase is CheckingTitle ==> final(self).edit_sticker_id == old(self).edit_sticker_id,
            old(self).phase is CheckingTitle && title@ == new_set_title() ==> final(self).phase is UploadingThird && final(self).failure is None,
            old(self).phase is CheckingTitle && title@ != new_set_title() ==> final(self).phase is Stopped && (match final(self).failure {
                Option::Some(Failure::Mismatch { expected, actual }) => expected@
                    == new_set_title() && actual@ == title@,
                _ => false,
            }),
    {
        match self.phase {
            Phase::FetchingSet => {
                match first_sticker_file_id {
                    Option::Some(id) => {
                        self.edit_sticker_id = Some(id);
                        self.phase = Phase::SettingTitle;
                    },
                    Option::None => {
                        self.failure = Some(
                            Failure::Missing {
                                what: String::from_str("the fetched sticker set is empty"),
                            },
                        );
                        self.phase = Phase::Stopped;
                    },
                }
            },
            _ => {
                let expected = String::from_str("New sticker set title");
                if title == expected {
                    self.phase = Phase::UploadingThird;
                } else {
                    self.failure = Some(Failure::Mismatch { expected, actual: title });
                    self.phase = Phase::Stopped;
                }
            },
        }
    }

    /// A remote call failed: the run stops and keeps the message.
    pub fn on_api_error(&mut self, message: String)
        requires
            old(self).wf(),
            !(old(self).phase is Done),
            !(old(self).phase is Stopped),
        ensures
            final(self).wf(),
            final(self).phase is Stopped,
            final(self).set_name == old(self).set_name,
            final(self).create_first == old(self).create_first,
            match final(self).failure {
                Option::Some(Failure::Api { message: m }) => m@ == message@,
                _ => false,
            },
    {
        self.failure = Some(Failure::Api { message });
        self.phase = Phase::Stopped;
    }
}

/// Clones the string a `Some` holds.
fn clone_some(s: &Option<String>) -> (r: String)
    requires
        s is Some,
    ensures
        r@ == (s->Some_0)@,
{
    match s {
        Option::Some(x) => x.clone(),
        Option::None => String::new(),
    }
}

} // verus!
