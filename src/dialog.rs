//! Dialog requests: message boxes and file or folder pickers, each with the
//! continuation that turns the user's answer into a message.
use vstd::prelude::*;

use crate::command::Command;
use crate::command::action::Action as Request;
use crate::continuation::{lemma_map_composition as lemma_continuation_composition, then_rel, Continuation};
use std::path::PathBuf;
use crate::render::{
    join_list, list_debug, opt_path, opt_path_debug, opt_str_debug, opt_text, quoted,
    str_debug,
};
use vstd::string::StringExecFns;

verus! {

#[verifier::external_type_specification]
#[verifier::external_body]
pub struct ExPathBuf(PathBuf);

/// A request to open a dialog, which resolves when the dialog closes.
#[verifier::reject_recursive_types(Msg)]
pub enum Action<Msg> {
    /// A message dialog with its options, its shape and its body text, if
    /// it has one.
    MessageDialog(MessageDialogOptions, MessageDialogVariant<Msg>, Option<String>),
    /// A file or folder picker with its options and its shape.
    FileDialog(FileDialogOptions, FileDialogVariant<Msg>),
}

/// Severity of a message dialog.
#[derive(Debug, Clone, Copy, PartialEq, Eq, Structural)]
pub enum MessageLevel {
    Info,
    Warning,
    Error,
}

/// The severity as `Debug` shows it.
pub open spec fn level_label(l: MessageLevel) -> Seq<char> {
    match l {
        MessageLevel::Info => "Info"@,
        MessageLevel::Warning => "Warning"@,
        MessageLevel::Error => "Error"@,
    }
}

/// Options common to all message dialogs.
#[derive(Debug, Clone, PartialEq, Eq)]
pub struct MessageDialogOptions {
    /// The severity of the dialog.
    pub level: MessageLevel,
    /// The dialog window's title.
    pub title: Option<String>,
}

/// The title as characters, if there is one.
pub open spec fn text_of(t: Option<String>) -> Option<Seq<char>> {
    match t {
        Some(s) => Some(s@),
        None => None,
    }
}

fn own_text(s: &str) -> (r: String)
    ensures
        r@ == s@,
{
    s.to_owned()
}

impl MessageDialogOptions {
    /// Options of severity `Info`, without a title.
    pub fn info() -> (r: Self)
        ensures
            r.level == MessageLevel::Info,
            r.title.is_none(),
    {
        MessageDialogOptions { level: MessageLevel::Info, title: None }
    }

    /// Options of severity `Warning`, without a title.
    pub fn warning() -> (r: Self)
        ensures
            r.level == MessageLevel::Warning,
            r.title.is_none(),
    {
        MessageDialogOptions { level: MessageLevel::Warning, title: None }
    }

    /// Options of severity `Error`, without a title.
    pub fn error() -> (r: Self)
        ensures
            r.level == MessageLevel::Error,
            r.title.is_none(),
    {
        MessageDialogOptions { level: MessageLevel::Error, title: None }
    }

    /// The same options with the given title.
    pub fn with_title(self, title: &str) -> (r: Self)
        ensures
            r.level == self.level,
            text_of(r.title) == Some(title@),
    {
        MessageDialogOptions { level: self.level, title: Some(own_text(title)) }
    }

    /// The same options with the given severity.
    pub fn with_level(self, level: MessageLevel) -> (r: Self)
        ensures
            r.level == level,
            r.title == self.title,
    {
        MessageDialogOptions { level, ..self }
    }

    /// The options as `Debug` shows them.
    pub open spec fn label(&self) -> Seq<char> {
        "MessageDialogOptions { level: "@ + level_label(self.level) + ", title: "@
            + opt_str_debug(self.title) + " }"@
    }

    /// Describes the options for diagnostics.
    pub fn describe(&self) -> (r: String)
        ensures
            r@ == self.label(),
    {
        let mut r = "MessageDialogOptions { level: ".to_owned();
        let level = match self.level {
            MessageLevel::Info => "Info",
            MessageLevel::Warning => "Warning",
            MessageLevel::Error => "Error",
        };
        r.append(level);
        r.append(", title: ");
        let t = opt_text(&self.title);
        r.append(t.as_str());
        r.append(" }");
        r
    }

    /// A command that opens a confirmation dialog with these options and
    /// the text `message`. When it closes, `on_close` receives `true` if the
    /// user chose Yes or Okay and `false` otherwise; `is_yes_no` picks the
    /// Yes/No buttons over Okay/Cancel.
    pub fn show_confirmation_dialog<Msg, F: FnOnce(bool) -> Msg + 'static>(
        self,
        on_close: F,
        is_yes_no: bool,
        message: &str,
    ) -> (r: Command<Msg>)
        where Msg: 'static,
        requires
            forall|b: bool| call_requires(on_close, (b,)),
        ensures
            r.wf(),
            r@.len() == 1,
            is_confirmation(r@[0], self, is_yes_no, message@, on_close),
    {
        let variant = MessageDialogVariant::Confirmation {
            on_close: Continuation::new(on_close),
            is_yes_no,
        };
        Command::single(Request::Dialog(Action::MessageDialog(self, variant, Some(own_text(message)))))
    }

    /// A command that opens an informational dialog with these options and
    /// the text `message`; once it is closed, `on_close` is sent.
    pub fn show_informational_dialog<Msg>(self, on_close: Msg, message: &str) -> (r: Command<Msg>)
        ensures
            r.wf(),
            r@.len() == 1,
            is_informational(r@[0], self, message@, on_close),
    {
        let variant = MessageDialogVariant::Informational(on_close);
        Command::single(Request::Dialog(Action::MessageDialog(self, variant, Some(own_text(message)))))
    }
}

impl<Msg> From<Action<Msg>> for Command<Msg> {
    /// A command holding only this dialog request.
    fn from(action: Action<Msg>) -> (r: Command<Msg>)
        ensures
            r@ == seq![Request::Dialog(action)],
    {
        Command::single(Request::Dialog(action))
    }
}

impl<Msg> vstd::std_specs::convert::FromSpecImpl<Action<Msg>> for Command<Msg> {
    open spec fn obeys_from_spec() -> bool {
        false
    }

    open spec fn from_spec(v: Action<Msg>) -> Command<Msg> {
        arbitrary()
    }
}

/// `a` opens a confirmation dialog with options `o` and text `text`, whose
/// continuation gives what `f` gives.
pub open spec fn is_confirmation<Msg, F: FnOnce(bool) -> Msg>(
    a: Request<Msg>,
    o: MessageDialogOptions,
    is_yes_no: bool,
    text: Seq<char>,
    f: F,
) -> bool {
    match a {
        Request::Dialog(
            Action::MessageDialog(o2, MessageDialogVariant::Confirmation { on_close, is_yes_no: y }, t),
        ) => {
            &&& o2 == o
            &&& y == is_yes_no
            &&& text_of(t) == Some(text)
            &&& on_close.wf()
            &&& forall|b: bool, m: Msg| #[trigger] on_close.gives(b, m) == call_ensures(f, (b,), m)
        },
        _ => false,
    }
}

/// `a` opens an informational dialog with options `o` and text `text`, and
/// sends `msg` once it is closed.
pub open spec fn is_informational<Msg>(
    a: Request<Msg>,
    o: MessageDialogOptions,
    text: Seq<char>,
    msg: Msg,
) -> bool {
    match a {
        Request::Dialog(Action::MessageDialog(o2, MessageDialogVariant::Informational(m), t)) => {
            o2 == o && text_of(t) == Some(text) && m == msg
        },
        _ => false,
    }
}

/// A command that opens an informational dialog of severity `Error`, with no
/// title and the text `error_msg`; once it is closed, `on_close` is sent.
pub fn error<Msg>(error_msg: &str, on_close: Msg) -> (r: Command<Msg>)
    ensures
        r.wf(),
        r@.len() == 1,
        is_informational(r@[0], (MessageDialogOptions { level: MessageLevel::Error, title: None }), error_msg@, on_close),
{
    MessageDialogOptions::error().show_informational_dialog(on_close, error_msg)
}

/// A command that opens an Okay/Cancel confirmation dialog of severity
/// `Error`, with no title and the text `error_msg`; `on_close` receives
/// `true` exactly when the user chose Okay.
pub fn confirmation<Msg, F: FnOnce(bool) -> Msg + 'static>(error_msg: &str, on_close: F) -> (r: Command<Msg>)
    where Msg: 'static,
    requires
        forall|b: bool| call_requires(on_close, (b,)),
    ensures
        r.wf(),
        r@.len() == 1,
        is_confirmation(r@[0], (MessageDialogOptions { level: MessageLevel::Error, title: None }), false, error_msg@, on_close),
{
    MessageDialogOptions::error().show_confirmation_dialog(on_close, false, error_msg)
}

/// The shape of a message dialog, and how it produces its message.
#[verifier::reject_recursive_types(Msg)]
pub enum MessageDialogVariant<Msg> {
    /// Two buttons; the continuation receives `true` exactly when the user
    /// chose Yes or Okay, and `false` for No, Cancel or a dismissed dialog.
    Confirmation {
        on_close: Continuation<bool, Msg>,
        /// Yes/No buttons rather than Okay/Cancel.
        is_yes_no: bool,
    },
    /// One button; the message is sent once the dialog is closed.
    Informational(Msg),
}

impl<Msg> MessageDialogVariant<Msg> {
    /// Every continuation in the variant can be resumed with any result.
    pub open spec fn wf(&self) -> bool {
        match self {
            MessageDialogVariant::Confirmation { on_close, .. } => on_close.wf(),
            MessageDialogVariant::Informational(_) => true,
        }
    }

    /// `self` is what mapping `f` over `src` gives: the same shape, with `f`
    /// composed after the continuation or applied to the fixed message.
    pub open spec fn mapped_from<M0, F: FnOnce(M0) -> Msg>(
        &self,
        src: MessageDialogVariant<M0>,
        f: F,
    ) -> bool {
        match (self, src) {
            (
                MessageDialogVariant::Confirmation { on_close, is_yes_no },
                MessageDialogVariant::Confirmation { on_close: k, is_yes_no: y },
            ) => *is_yes_no == y && on_close.mapped_from(k, f),
            (MessageDialogVariant::Informational(m), MessageDialogVariant::Informational(m0)) => {
                call_ensures(f, (m0,), *m)
            },
            _ => false,
        }
    }

    /// Both variants present the same dialog and produce the same messages.
    pub open spec fn same_behaviour(&self, other: MessageDialogVariant<Msg>) -> bool {
        match (self, other) {
            (
                MessageDialogVariant::Confirmation { on_close, is_yes_no },
                MessageDialogVariant::Confirmation { on_close: k, is_yes_no: y },
            ) => *is_yes_no == y && on_close.same_behaviour(k),
            (MessageDialogVariant::Informational(m), MessageDialogVariant::Informational(n)) => {
                *m == n
            },
            _ => false,
        }
    }

    /// The variant's tag and button labels, as diagnostics show them.
    pub open spec fn label(&self) -> Seq<char> {
        match self {
            MessageDialogVariant::Confirmation { is_yes_no: true, .. } => "Confirmation(Yes/No)"@,
            MessageDialogVariant::Confirmation { is_yes_no: false, .. } => "Confirmation(Okay/Cancel)"@,
            MessageDialogVariant::Informational(_) => "Informational"@,
        }
    }

    /// Describes the variant for diagnostics, without its continuation.
    pub fn describe(&self) -> (r: String)
        ensures
            r@ == self.label(),
    {
        match self {
            MessageDialogVariant::Confirmation { is_yes_no: true, .. } => own_text("Confirmation(Yes/No)"),
            MessageDialogVariant::Confirmation { is_yes_no: false, .. } => own_text("Confirmation(Okay/Cancel)"),
            MessageDialogVariant::Informational(_) => own_text("Informational"),
        }
    }

    /// Applies `f` to the message that this variant produces.
    pub fn map<M2, F: FnOnce(Msg) -> M2 + 'static>(self, f: F) -> (r: MessageDialogVariant<M2>)
        where Msg: 'static, M2: 'static,
        requires
            self.wf(),
            forall|m: Msg| call_requires(f, (m,)),
        ensures
            r.wf(),
            r.mapped_from(self, f),
    {
        match self {
            MessageDialogVariant::Confirmation { on_close, is_yes_no } => {
                MessageDialogVariant::Confirmation { on_close: on_close.map(f), is_yes_no }
            },
            MessageDialogVariant::Informational(m) => MessageDialogVariant::Informational(f(m)),
        }
    }
}

/// A named group of file extensions offered by a file picker.
#[derive(Debug, Clone)]
pub enum Filter {
    /// A filter built from owned values.
    Owned { name: String, extensions: Vec<String> },
    /// A filter built from constants.
    Static { name: &'static str, extensions: &'static [&'static str] },
}

impl View for Filter {
    /// The name and the extensions, in order.
    type V = (Seq<char>, Seq<Seq<char>>);

    open spec fn view(&self) -> (Seq<char>, Seq<Seq<char>>) {
        match self {
            Filter::Owned { name, extensions } => (
                name@,
                extensions@.map_values(|e: String| e@),
            ),
            Filter::Static { name, extensions } => (
                name@,
                extensions@.map_values(|e: &str| e@),
            ),
        }
    }
}

impl Filter {
    /// A filter from constant text.
    pub fn new_const(name: &'static str, extensions: &'static [&'static str]) -> (r: Self)
        ensures
            r == (Filter::Static { name, extensions }),
            r@.0 == name@,
            r@.1 == extensions@.map_values(|e: &str| e@),
    {
        Filter::Static { name, extensions }
    }

    /// Raster images: webp, png, jpg, jpeg, gif and tiff.
    pub fn image_files() -> (r: Self)
        ensures
            r@ == ("Images"@, seq!["webp"@, "png"@, "jpg"@, "jpeg"@, "gif"@, "tiff"@]),
    {
        let r = Filter::new_const("Images", &["webp", "png", "jpg", "jpeg", "gif", "tiff"]);
        assert(r@.1 =~= seq!["webp"@, "png"@, "jpg"@, "jpeg"@, "gif"@, "tiff"@]);
        r
    }

    /// Audio: mp3, wav, ogg, flac and aac.
    pub fn audio_files() -> (r: Self)
        ensures
            r@ == ("Audio"@, seq!["mp3"@, "wav"@, "ogg"@, "flac"@, "aac"@]),
    {
        let r = Filter::new_const("Audio", &["mp3", "wav", "ogg", "flac", "aac"]);
        assert(r@.1 =~= seq!["mp3"@, "wav"@, "ogg"@, "flac"@, "aac"@]);
        r
    }

    /// Text: txt.
    pub fn text_files() -> (r: Self)
        ensures
            r@ == ("Text"@, seq!["txt"@]),
    {
        let r = Filter::new_const("Text", &["txt"]);
        assert(r@.1 =~= seq!["txt"@]);
        r
    }

    /// A filter from owned text.
    pub fn new(name: String, extensions: Vec<String>) -> (r: Self)
        ensures
            r == (Filter::Owned { name, extensions }),
            r@.0 == name@,
            r@.1 == extensions@.map_values(|e: String| e@),
    {
        Filter::Owned { name, extensions }
    }

    /// The filter's name.
    pub fn name(&self) -> (r: &str)
        ensures
            r@ == self@.0,
    {
        match self {
            Filter::Static { name, .. } => name,
            Filter::Owned { name, .. } => name.as_str(),
        }
    }

    /// The filter's extensions, in order.
    pub fn extensions(&self) -> (r: Vec<String>)
        ensures
            r@.map_values(|e: String| e@) == self@.1,
    {
        let mut r: Vec<String> = Vec::new();
        match self {
            Filter::Static { extensions, .. } => {
                let mut i: usize = 0;
                while i < extensions.len()
                    invariant
                        i <= extensions@.len(),
                        r@.len() == i,
                        forall|j: int| 0 <= j < i ==> #[trigger] r@[j]@ == extensions@[j]@,
                    decreases extensions@.len() - i,
                {
                    r.push(extensions[i].to_owned());
                    i = i + 1;
                }
                assert(r@.map_values(|e: String| e@) =~= self@.1);
            },
            Filter::Owned { extensions, .. } => {
                let mut i: usize = 0;
                while i < extensions.len()
                    invariant
                        i <= extensions@.len(),
                        r@.len() == i,
                        forall|j: int| 0 <= j < i ==> #[trigger] r@[j]@ == extensions@[j]@,
                    decreases extensions@.len() - i,
                {
                    r.push(extensions[i].clone());
                    i = i + 1;
                }
                assert(r@.map_values(|e: String| e@) =~= self@.1);
            },
        }
        r
    }

    /// The filter as `Debug` shows it: its kind, name and extensions.
    pub open spec fn label(&self) -> Seq<char> {
        match self {
            Filter::Owned { name, extensions } => "Owned { name: "@ + str_debug(name@)
                + ", extensions: "@ + list_debug(extensions@.map_values(|e: String| str_debug(e@)))
                + " }"@,
            Filter::Static { name, extensions } => "Static { name: "@ + str_debug(name@)
                + ", extensions: "@ + list_debug(extensions@.map_values(|e: &str| str_debug(e@)))
                + " }"@,
        }
    }

    /// Describes the filter for diagnostics.
    pub fn describe(&self) -> (r: String)
        ensures
            r@ == self.label(),
    {
        let mut items: Vec<String> = Vec::new();
        let (mut r, name) = match self {
            Filter::Owned { name, extensions } => {
                let mut i: usize = 0;
                while i < extensions.len()
                    invariant
                        i <= extensions@.len(),
                        items@.len() == i,
                        forall|j: int| 0 <= j < i ==> #[trigger] items@[j]@ == str_debug(extensions@[j]@),
                    decreases extensions@.len() - i,
                {
                    items.push(quoted(extensions[i].as_str()));
                    i = i + 1;
                }
                assert(items@.map_values(|s: String| s@) =~= extensions@.map_values(|e: String| str_debug(e@)));
                ("Owned { name: ".to_owned(), name.as_str())
            },
            Filter::Static { name, extensions } => {
                let mut i: usize = 0;
                while i < extensions.len()
                    invariant
                        i <= extensions@.len(),
                        items@.len() == i,
                        forall|j: int| 0 <= j < i ==> #[trigger] items@[j]@ == str_debug(extensions@[j]@),
                    decreases extensions@.len() - i,
                {
                    items.push(quoted(extensions[i]));
                    i = i + 1;
                }
                assert(items@.map_values(|s: String| s@) =~= extensions@.map_values(|e: &str| str_debug(e@)));
                ("Static { name: ".to_owned(), *name)
            },
        };
        let q = quoted(name);
        r.append(q.as_str());
        r.append(", extensions: ");
        let l = join_list(&items);
        r.append(l.as_str());
        r.append(" }");
        r
    }

    /// A filter with the same name and extensions.
    pub fn duplicate(&self) -> (r: Filter)
        ensures
            r@ == self@,
            r is Static <==> self is Static,
            self is Static ==> r == *self,
            r.label() == self.label(),
    {
        match self {
            Filter::Static { name, extensions } => Filter::Static { name, extensions },
            Filter::Owned { name, extensions } => {
                let copied = self.extensions();
                proof {
                    assert(copied@.len() == extensions@.len()) by {
                        assert(copied@.map_values(|e: String| e@).len() == extensions@.map_values(|e: String| e@).len());
                    }
                    assert forall|i: int| 0 <= i < extensions@.len() implies #[trigger] copied@[i]@ == extensions@[i]@ by {
                        assert(copied@.map_values(|e: String| e@)[i] == extensions@.map_values(|e: String| e@)[i]);
                    }
                    assert(copied@.map_values(|e: String| str_debug(e@)) =~= extensions@.map_values(|e: String| str_debug(e@)));
                }
                Filter::Owned { name: name.clone(), extensions: copied }
            },
        }
    }
}

/// An owned filter and a constant one with the same name and extensions, in
/// the same order, have the same view, so `name` and `extensions` return
/// the same text for both.
pub proof fn lemma_owned_matches_constant(
    name: String,
    extensions: Vec<String>,
    const_name: &'static str,
    const_extensions: &'static [&'static str],
)
    requires
        name@ == const_name@,
        extensions@.len() == const_extensions@.len(),
        forall|i: int| 0 <= i < extensions@.len() ==> #[trigger] extensions@[i]@ == const_extensions@[i]@,
    ensures
        (Filter::Owned { name, extensions })@ == (Filter::Static { name: const_name, extensions: const_extensions })@,
{
    assert(extensions@.map_values(|e: String| e@) =~= const_extensions@.map_values(|e: &str| e@));
}

/// The filters' views, in order.
pub open spec fn filters_view(fs: Seq<Filter>) -> Seq<(Seq<char>, Seq<Seq<char>>)> {
    fs.map_values(|f: Filter| f@)
}

/// Options common to all file dialogs.
#[derive(Debug)]
pub struct FileDialogOptions {
    /// Filters offered to the user, in display order; none means all files.
    pub filters: Vec<Filter>,
    /// The directory the dialog starts in.
    pub initial_directory: Option<PathBuf>,
    /// The file name the dialog starts with.
    pub initial_filename: Option<String>,
    /// The dialog window's title.
    pub title: Option<String>,
}

impl FileDialogOptions {
    /// Options with no filters and nothing preset.
    pub fn new() -> (r: Self)
        ensures
            r.filters@.len() == 0,
            r.initial_directory.is_none(),
            r.initial_filename.is_none(),
            r.title.is_none(),
    {
        FileDialogOptions {
            filters: Vec::new(),
            initial_directory: None,
            initial_filename: None,
            title: None,
        }
    }

    /// Options with the given filters, in order, and nothing preset.
    pub fn new_with_filters(filters: &[Filter]) -> (r: Self)
        ensures
            filters_view(r.filters@) == filters_view(filters@),
            forall|j: int| 0 <= j < filters@.len() ==> (#[trigger] r.filters@[j] is Static <==> filters@[j] is Static),
            forall|j: int| 0 <= j < filters@.len() ==> #[trigger] r.filters@[j].label() == filters@[j].label(),
            r.initial_directory.is_none(),
            r.initial_filename.is_none(),
            r.title.is_none(),
    {
        let mut v: Vec<Filter> = Vec::new();
        let mut i: usize = 0;
        while i < filters.len()
            invariant
                i <= filters@.len(),
                v@.len() == i,
                forall|j: int| 0 <= j < i ==> #[trigger] v@[j]@ == filters@[j]@,
                forall|j: int| 0 <= j < i ==> (#[trigger] v@[j] is Static <==> filters@[j] is Static),
                forall|j: int| 0 <= j < i ==> #[trigger] v@[j].label() == filters@[j].label(),
            decreases filters@.len() - i,
        {
            v.push(filters[i].duplicate());
            i = i + 1;
        }
        assert(filters_view(v@) =~= filters_view(filters@));
        FileDialogOptions {
            filters: v,
            initial_directory: None,
            initial_filename: None,
            title: None,
        }
    }

    /// The options as `Debug` shows them.
    pub open spec fn label(&self) -> Seq<char> {
        "FileDialogOptions { filters: "@ + list_debug(self.filters@.map_values(|f: Filter| f.label()))
            + ", initial_directory: "@ + opt_path_debug(self.initial_directory)
            + ", initial_filename: "@ + opt_str_debug(self.initial_filename) + ", title: "@
            + opt_str_debug(self.title) + " }"@
    }

    /// Describes the options for diagnostics.
    pub fn describe(&self) -> (r: String)
        ensures
            r@ == self.label(),
    {
        let mut items: Vec<String> = Vec::new();
        let mut i: usize = 0;
        while i < self.filters.len()
            invariant
                i <= self.filters@.len(),
                items@.len() == i,
                forall|j: int| 0 <= j < i ==> #[trigger] items@[j]@ == self.filters@[j].label(),
            decreases self.filters@.len() - i,
        {
            items.push(self.filters[i].describe());
            i = i + 1;
        }
        assert(items@.map_values(|s: String| s@) =~= self.filters@.map_values(|f: Filter| f.label()));
        let mut r = "FileDialogOptions { filters: ".to_owned();
        let l = join_list(&items);
        r.append(l.as_str());
        r.append(", initial_directory: ");
        let d = opt_path(&self.initial_directory);
        r.append(d.as_str());
        r.append(", initial_filename: ");
        let n = opt_text(&self.initial_filename);
        r.append(n.as_str());
        r.append(", title: ");
        let t = opt_text(&self.title);
        r.append(t.as_str());
        r.append(" }");
        r
    }

    /// The same options with `filter` added after the existing filters.
    pub fn add_filter(self, filter: Filter) -> (r: Self)
        ensures
            r.filters@ == self.filters@.push(filter),
            r.initial_directory == self.initial_directory,
            r.initial_filename == self.initial_filename,
            r.title == self.title,
    {
        let mut s = self;
        s.filters.push(filter);
        s
    }

    /// The same options, starting in directory `path`.
    pub fn with_initial_directory(self, path: PathBuf) -> (r: Self)
        ensures
            r.filters == self.filters,
            r.initial_directory == Some(path),
            r.initial_filename == self.initial_filename,
            r.title == self.title,
    {
        FileDialogOptions { initial_directory: Some(path), ..self }
    }

    /// The same options, starting with file name `filename`.
    pub fn with_initial_filename(self, filename: &str) -> (r: Self)
        ensures
            r.filters == self.filters,
            r.initial_directory == self.initial_directory,
            text_of(r.initial_filename) == Some(filename@),
            r.title == self.title,
    {
        FileDialogOptions { initial_filename: Some(own_text(filename)), ..self }
    }

    /// The same options with the given title.
    pub fn with_title(self, title: &str) -> (r: Self)
        ensures
            r.filters == self.filters,
            r.initial_directory == self.initial_directory,
            r.initial_filename == self.initial_filename,
            text_of(r.title) == Some(title@),
    {
        FileDialogOptions { title: Some(own_text(title)), ..self }
    }
}

/// The shape of a file dialog, and how it produces its message.
#[verifier::reject_recursive_types(Msg)]
pub enum FileDialogVariant<Msg> {
    /// Selects one path, to open (it must exist) or to save (it may be new,
    /// in an existing directory). Cancelling resumes with `None`.
    SingleFileDialog { is_save_dialog: bool, on_select: Continuation<Option<PathBuf>, Msg> },
    /// Selects any number of existing files, in the order chosen.
    /// Cancelling resumes with an empty list.
    MultiFileDialog(Continuation<Vec<PathBuf>, Msg>),
    /// Selects one directory. Cancelling resumes with `None`.
    FolderSelectDialog(Continuation<Option<PathBuf>, Msg>),
}

impl<Msg> FileDialogVariant<Msg> {
    /// Every continuation in the variant can be resumed with any result.
    pub open spec fn wf(&self) -> bool {
        match self {
            FileDialogVariant::SingleFileDialog { on_select, .. } => on_select.wf(),
            FileDialogVariant::MultiFileDialog(k) => k.wf(),
            FileDialogVariant::FolderSelectDialog(k) => k.wf(),
        }
    }

    /// `self` is what mapping `f` over `src` gives: the same shape, with `f`
    /// composed after the continuation.
    pub open spec fn mapped_from<M0, F: FnOnce(M0) -> Msg>(
        &self,
        src: FileDialogVariant<M0>,
        f: F,
    ) -> bool {
        match (self, src) {
            (
                FileDialogVariant::SingleFileDialog { is_save_dialog, on_select },
                FileDialogVariant::SingleFileDialog { is_save_dialog: s, on_select: k },
            ) => *is_save_dialog == s && on_select.mapped_from(k, f),
            (FileDialogVariant::MultiFileDialog(c), FileDialogVariant::MultiFileDialog(k)) => {
                c.mapped_from(k, f)
            },
            (FileDialogVariant::FolderSelectDialog(c), FileDialogVariant::FolderSelectDialog(k)) => {
                c.mapped_from(k, f)
            },
            _ => false,
        }
    }

    /// Both variants present the same dialog and produce the same messages.
    pub open spec fn same_behaviour(&self, other: FileDialogVariant<Msg>) -> bool {
        match (self, other) {
            (
                FileDialogVariant::SingleFileDialog { is_save_dialog, on_select },
                FileDialogVariant::SingleFileDialog { is_save_dialog: s, on_select: k },
            ) => *is_save_dialog == s && on_select.same_behaviour(k),
            (FileDialogVariant::MultiFileDialog(c), FileDialogVariant::MultiFileDialog(k)) => {
                c.same_behaviour(k)
            },
            (FileDialogVariant::FolderSelectDialog(c), FileDialogVariant::FolderSelectDialog(k)) => {
                c.same_behaviour(k)
            },
            _ => false,
        }
    }

    /// The variant's tag and mode, as diagnostics show them.
    pub open spec fn label(&self) -> Seq<char> {
        match self {
            FileDialogVariant::SingleFileDialog { is_save_dialog: true, .. } => "SingleFileDialog(save)"@,
            FileDialogVariant::SingleFileDialog { is_save_dialog: false, .. } => "SingleFileDialog(open)"@,
            FileDialogVariant::MultiFileDialog(_) => "MultiFileDialog"@,
            FileDialogVariant::FolderSelectDialog(_) => "FolderSelectDialog"@,
        }
    }

    /// Describes the variant for diagnostics, without its continuation.
    pub fn describe(&self) -> (r: String)
        ensures
            r@ == self.label(),
    {
        match self {
            FileDialogVariant::SingleFileDialog { is_save_dialog: true, .. } => own_text("SingleFileDialog(save)"),
            FileDialogVariant::SingleFileDialog { is_save_dialog: false, .. } => own_text("SingleFileDialog(open)"),
            FileDialogVariant::MultiFileDialog(_) => own_text("MultiFileDialog"),
            FileDialogVariant::FolderSelectDialog(_) => own_text("FolderSelectDialog"),
        }
    }

    /// Applies `f` to the message that this variant produces.
    pub fn map<M2, F: FnOnce(Msg) -> M2 + 'static>(self, f: F) -> (r: FileDialogVariant<M2>)
        where Msg: 'static, M2: 'static,
        requires
            self.wf(),
            forall|m: Msg| call_requires(f, (m,)),
        ensures
            r.wf(),
            r.mapped_from(self, f),
    {
        match self {
            FileDialogVariant::SingleFileDialog { is_save_dialog, on_select } => {
                FileDialogVariant::SingleFileDialog { is_save_dialog, on_select: on_select.map(f) }
            },
            FileDialogVariant::MultiFileDialog(k) => FileDialogVariant::MultiFileDialog(k.map(f)),
            FileDialogVariant::FolderSelectDialog(k) => FileDialogVariant::FolderSelectDialog(
                k.map(f),
            ),
        }
    }
}

impl<Msg> Action<Msg> {
    pub open spec fn wf(&self) -> bool {
        match self {
            Action::MessageDialog(_, v, _) => v.wf(),
            Action::FileDialog(_, v) => v.wf(),
        }
    }

    /// `self` is what mapping `f` over `src` gives: the same options and
    /// text, with the variant mapped.
    pub open spec fn mapped_from<M0, F: FnOnce(M0) -> Msg>(&self, src: Action<M0>, f: F) -> bool {
        match (self, src) {
            (Action::MessageDialog(o, v, t), Action::MessageDialog(o0, v0, t0)) => {
                *o == o0 && *t == t0 && v.mapped_from(v0, f)
            },
            (Action::FileDialog(o, v), Action::FileDialog(o0, v0)) => {
                *o == o0 && v.mapped_from(v0, f)
            },
            _ => false,
        }
    }

    /// Both requests open the same dialog and produce the same messages.
    pub open spec fn same_behaviour(&self, other: Action<Msg>) -> bool {
        match (self, other) {
            (Action::MessageDialog(o, v, t), Action::MessageDialog(o0, v0, t0)) => {
                *o == o0 && *t == t0 && v.same_behaviour(v0)
            },
            (Action::FileDialog(o, v), Action::FileDialog(o0, v0)) => {
                *o == o0 && v.same_behaviour(v0)
            },
            _ => false,
        }
    }

    /// The request as diagnostics show it: its kind, its options, its
    /// variant's label and, for a message dialog with a body, the quoted body.
    pub open spec fn label(&self) -> Seq<char> {
        match self {
            Action::MessageDialog(o, v, t) => "MessageDialog("@ + o.label() + ", "@ + v.label()
                + match t {
                Some(s) => " "@ + str_debug(s@),
                None => Seq::empty(),
            } + ")"@,
            Action::FileDialog(o, v) => "FileDialog("@ + o.label() + ", "@ + v.label() + ")"@,
        }
    }

    /// Describes the request for diagnostics, without its continuation.
    pub fn describe(&self) -> (r: String)
        ensures
            r@ == self.label(),
    {
        match self {
            Action::MessageDialog(o, v, t) => {
                let mut r = own_text("MessageDialog(");
                let os = o.describe();
                r.append(os.as_str());
                r.append(", ");
                let vs = v.describe();
                r.append(vs.as_str());
                match t {
                    Some(s) => {
                        r.append(" ");
                        let q = quoted(s.as_str());
                        r.append(q.as_str());
                    },
                    None => {},
                }
                r.append(")");
                assert(r@ =~= self.label());
                r
            },
            Action::FileDialog(o, v) => {
                let mut r = own_text("FileDialog(");
                let os = o.describe();
                r.append(os.as_str());
                r.append(", ");
                let vs = v.describe();
                r.append(vs.as_str());
                r.append(")");
                r
            },
        }
    }

    /// Applies `f` to the message that this request produces, leaving the
    /// options and the text as they are.
    pub fn map<M2, F: FnOnce(Msg) -> M2 + 'static>(self, f: F) -> (r: Action<M2>)
        where Msg: 'static, M2: 'static,
        requires
            self.wf(),
            forall|m: Msg| call_requires(f, (m,)),
        ensures
            r.wf(),
            r.mapped_from(self, f),
    {
        match self {
            Action::MessageDialog(options, variant, text) => {
                Action::MessageDialog(options, variant.map(f), text)
            },
            Action::FileDialog(options, variant) => Action::FileDialog(options, variant.map(f)),
        }
    }
}

/// Mapping pure functions `f` and then `g` over a dialog request gives a
/// request that does the same as mapping once with their composition `h`.
pub proof fn lemma_dialog_map_composition<A, B, C, F: FnOnce(A) -> B, G: FnOnce(B) -> C, H: FnOnce(A) -> C>(
    a: Action<A>,
    f: F,
    g: G,
    h: H,
    af: Action<B>,
    afg: Action<C>,
    ah: Action<C>,
)
    requires
        forall|x: A, y1: B, y2: B| call_ensures(f, (x,), y1) && call_ensures(f, (x,), y2) ==> y1 == y2,
        forall|x: B, y1: C, y2: C| call_ensures(g, (x,), y1) && call_ensures(g, (x,), y2) ==> y1 == y2,
        forall|x: A, z: C|
            #[trigger] call_ensures(h, (x,), z) <==> exists|y: B|
                call_ensures(f, (x,), y) && call_ensures(g, (y,), z),
        af.mapped_from(a, f),
        afg.mapped_from(af, g),
        ah.mapped_from(a, h),
    ensures
        afg.same_behaviour(ah),
{
    match (afg, af, ah, a) {
        (
            Action::MessageDialog(_, v2, _),
            Action::MessageDialog(_, v1, _),
            Action::MessageDialog(_, vh, _),
            Action::MessageDialog(_, v0, _),
        ) => {
            match (v2, v1, vh, v0) {
                (
                    MessageDialogVariant::Confirmation { on_close: k2, .. },
                    MessageDialogVariant::Confirmation { on_close: k1, .. },
                    MessageDialogVariant::Confirmation { on_close: kh, .. },
                    MessageDialogVariant::Confirmation { on_close: k0, .. },
                ) => {
                    lemma_continuation_composition(k0, f, g, h, k1, k2, kh);
                },
                (
                    MessageDialogVariant::Informational(m2),
                    MessageDialogVariant::Informational(m1),
                    MessageDialogVariant::Informational(mh),
                    MessageDialogVariant::Informational(m0),
                ) => {
                    assert(call_ensures(h, (m0,), mh));
                    let y = choose|y: B| call_ensures(f, (m0,), y) && call_ensures(g, (y,), mh);
                    assert(y == m1);
                    assert(mh == m2);
                },
                _ => {},
            }
        },
        (
            Action::FileDialog(_, v2),
            Action::FileDialog(_, v1),
            Action::FileDialog(_, vh),
            Action::FileDialog(_, v0),
        ) => {
            match (v2, v1, vh, v0) {
                (
                    FileDialogVariant::SingleFileDialog { on_select: k2, .. },
                    FileDialogVariant::SingleFileDialog { on_select: k1, .. },
                    FileDialogVariant::SingleFileDialog { on_select: kh, .. },
                    FileDialogVariant::SingleFileDialog { on_select: k0, .. },
                ) => {
                    lemma_continuation_composition(k0, f, g, h, k1, k2, kh);
                },
                (
                    FileDialogVariant::MultiFileDialog(k2),
                    FileDialogVariant::MultiFileDialog(k1),
                    FileDialogVariant::MultiFileDialog(kh),
                    FileDialogVariant::MultiFileDialog(k0),
                ) => {
                    lemma_continuation_composition(k0, f, g, h, k1, k2, kh);
                },
                (
                    FileDialogVariant::FolderSelectDialog(k2),
                    FileDialogVariant::FolderSelectDialog(k1),
                    FileDialogVariant::FolderSelectDialog(kh),
                    FileDialogVariant::FolderSelectDialog(k0),
                ) => {
                    lemma_continuation_composition(k0, f, g, h, k1, k2, kh);
                },
                _ => {},
            }
        },
        _ => {},
    }
}

} // verus!
