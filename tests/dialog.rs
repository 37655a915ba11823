use iced_dialog::command::action::Action as Request;
use iced_dialog::command::Command;
use iced_dialog::continuation::Continuation;
use iced_dialog::dialog::{
    confirmation, error, Action, FileDialogOptions, FileDialogVariant, Filter, MessageDialogOptions,
    MessageDialogVariant, MessageLevel,
};
use std::path::PathBuf;

#[derive(Debug, PartialEq, Eq)]
enum Msg {
    Accepted,
    Declined,
    Closed,
    Picked(Option<PathBuf>),
    PickedMany(Vec<PathBuf>),
    Wrapped(Box<Msg>),
}

fn only_dialog<T>(command: Command<T>) -> Action<T> {
    let mut actions = command.actions();
    assert_eq!(actions.len(), 1);
    match actions.pop() {
        Some(Request::Dialog(action)) => action,
        _ => panic!("expected a dialog request"),
    }
}

fn confirm(b: bool) -> Msg {
    if b {
        Msg::Accepted
    } else {
        Msg::Declined
    }
}

fn resume_confirmation(command: Command<Msg>, choice: bool) -> (MessageDialogOptions, bool, Option<String>, Msg) {
    match only_dialog(command) {
        Action::MessageDialog(options, MessageDialogVariant::Confirmation { on_close, is_yes_no }, text) => {
            (options, is_yes_no, text, on_close.resume(choice))
        }
        _ => panic!("expected a confirmation dialog"),
    }
}

#[test]
fn yes_no_confirmation_resolves_by_choice() {
    let command = MessageDialogOptions::info().show_confirmation_dialog(confirm, true, "Proceed?");
    let (options, is_yes_no, text, msg) = resume_confirmation(command, true);
    assert_eq!(options.level, MessageLevel::Info);
    assert_eq!(options.title, None);
    assert!(is_yes_no);
    assert_eq!(text.as_deref(), Some("Proceed?"));
    assert_eq!(msg, Msg::Accepted);

    let command = MessageDialogOptions::info().show_confirmation_dialog(confirm, true, "Proceed?");
    let (_, _, _, msg) = resume_confirmation(command, false);
    assert_eq!(msg, Msg::Declined);
}

#[test]
fn informational_dialog_sends_its_message() {
    let command = MessageDialogOptions::error().show_informational_dialog(Msg::Closed, "Some awful error happened!");
    match only_dialog(command) {
        Action::MessageDialog(options, MessageDialogVariant::Informational(m), text) => {
            assert_eq!(options.level, MessageLevel::Error);
            assert_eq!(options.title, None);
            assert_eq!(text.as_deref(), Some("Some awful error happened!"));
            assert_eq!(m, Msg::Closed);
        }
        _ => panic!("expected an informational dialog"),
    }
}

#[test]
fn error_shorthand_is_an_error_informational_dialog() {
    match only_dialog(error("Oh noes!!!", Msg::Closed)) {
        Action::MessageDialog(options, MessageDialogVariant::Informational(m), text) => {
            assert_eq!(options.level, MessageLevel::Error);
            assert_eq!(options.title, None);
            assert_eq!(text.as_deref(), Some("Oh noes!!!"));
            assert_eq!(m, Msg::Closed);
        }
        _ => panic!("expected an informational dialog"),
    }
}

#[test]
fn confirmation_shorthand_uses_okay_cancel() {
    let (options, is_yes_no, text, msg) = resume_confirmation(confirmation("Do you like waffles?", confirm), true);
    assert_eq!(options.level, MessageLevel::Error);
    assert_eq!(options.title, None);
    assert!(!is_yes_no);
    assert_eq!(text.as_deref(), Some("Do you like waffles?"));
    assert_eq!(msg, Msg::Accepted);
    let (_, _, _, msg) = resume_confirmation(confirmation("Do you like waffles?", confirm), false);
    assert_eq!(msg, Msg::Declined);
}

#[test]
fn message_options_builders() {
    assert_eq!(MessageDialogOptions::info().level, MessageLevel::Info);
    assert_eq!(MessageDialogOptions::warning().level, MessageLevel::Warning);
    assert_eq!(MessageDialogOptions::warning().title, None);
    let o = MessageDialogOptions::warning().with_title("Careful").with_level(MessageLevel::Error);
    assert_eq!(o.level, MessageLevel::Error);
    assert_eq!(o.title.as_deref(), Some("Careful"));
    let o = MessageDialogOptions::info().with_level(MessageLevel::Warning).with_title("Heads up");
    assert_eq!(o.level, MessageLevel::Warning);
    assert_eq!(o.title.as_deref(), Some("Heads up"));
}

#[test]
fn single_file_dialog_cancelled_resolves_with_none() {
    let options = FileDialogOptions::new();
    assert!(options.filters.is_empty());
    let variant = FileDialogVariant::SingleFileDialog {
        is_save_dialog: false,
        on_select: Continuation::new(Msg::Picked),
    };
    match Action::FileDialog(options, variant) {
        Action::FileDialog(_, FileDialogVariant::SingleFileDialog { is_save_dialog, on_select }) => {
            assert!(!is_save_dialog);
            assert_eq!(on_select.resume(None), Msg::Picked(None));
        }
        _ => panic!("expected a single file dialog"),
    }
}

#[test]
fn single_file_dialog_selection_is_passed_on() {
    let on_select = Continuation::new(Msg::Picked);
    assert_eq!(
        on_select.resume(Some(PathBuf::from("notes.txt"))),
        Msg::Picked(Some(PathBuf::from("notes.txt")))
    );
}

#[test]
fn multi_file_dialog_keeps_selection_order() {
    let variant = FileDialogVariant::MultiFileDialog(Continuation::new(Msg::PickedMany));
    match variant {
        FileDialogVariant::MultiFileDialog(k) => {
            let picked = vec![PathBuf::from("a.txt"), PathBuf::from("b.txt")];
            assert_eq!(
                k.resume(picked),
                Msg::PickedMany(vec![PathBuf::from("a.txt"), PathBuf::from("b.txt")])
            );
        }
        _ => panic!("expected a multi file dialog"),
    }
    let k = Continuation::new(Msg::PickedMany);
    assert_eq!(k.resume(Vec::new()), Msg::PickedMany(Vec::new()));
}

#[test]
fn folder_dialog_cancelled_resolves_with_none() {
    let variant = FileDialogVariant::FolderSelectDialog(Continuation::new(Msg::Picked));
    let mapped = variant.map(|m| Msg::Wrapped(Box::new(m)));
    match mapped {
        FileDialogVariant::FolderSelectDialog(k) => {
            assert_eq!(k.resume(None), Msg::Wrapped(Box::new(Msg::Picked(None))));
        }
        _ => panic!("expected a folder dialog"),
    }
}

#[test]
fn owned_and_constant_filters_agree() {
    let owned = Filter::new("Images".to_string(), vec!["png".to_string(), "jpg".to_string()]);
    let constant = Filter::new_const("Images", &["png", "jpg"]);
    assert_eq!(owned.name(), constant.name());
    assert_eq!(owned.extensions(), constant.extensions());
    assert_eq!(constant.name(), "Images");
    assert_eq!(constant.extensions(), vec!["png".to_string(), "jpg".to_string()]);
}

#[test]
fn filter_accessors_keep_order_and_case() {
    let f = Filter::new_const("Music Files", &["mp3", "FLAC", "ogg"]);
    assert_eq!(f.name(), "Music Files");
    assert_eq!(f.extensions(), vec!["mp3".to_owned(), "FLAC".to_owned(), "ogg".to_owned()]);
    let empty = Filter::new("Nothing".to_string(), Vec::new());
    assert!(empty.extensions().is_empty());
    let copy = f.duplicate();
    assert_eq!(copy.name(), "Music Files");
    assert_eq!(copy.extensions(), f.extensions());
}

#[test]
fn file_options_builders() {
    let filters = [
        Filter::new_const("Text", &["txt"]),
        Filter::new("Audio".to_string(), vec!["mp3".to_string()]),
    ];
    let o = FileDialogOptions::new_with_filters(&filters)
        .add_filter(Filter::new_const("Images", &["png"]))
        .with_initial_directory(PathBuf::from("/tmp"))
        .with_initial_filename("out.txt")
        .with_title("Save as");
    let names: Vec<&str> = o.filters.iter().map(|f| f.name()).collect();
    assert_eq!(names, vec!["Text", "Audio", "Images"]);
    assert_eq!(o.filters[1].extensions(), vec!["mp3".to_string()]);
    assert_eq!(o.initial_directory, Some(PathBuf::from("/tmp")));
    assert_eq!(o.initial_filename.as_deref(), Some("out.txt"));
    assert_eq!(o.title.as_deref(), Some("Save as"));
    let plain = FileDialogOptions::new();
    assert!(plain.filters.is_empty());
    assert_eq!(plain.initial_directory, None);
    assert_eq!(plain.initial_filename, None);
    assert_eq!(plain.title, None);
}

#[test]
fn dialog_map_keeps_options_and_text() {
    let action = Action::MessageDialog(
        MessageDialogOptions::warning().with_title("T"),
        MessageDialogVariant::Confirmation { on_close: Continuation::new(confirm), is_yes_no: false },
        Some("Sure?".to_string()),
    );
    match action.map(|m| Msg::Wrapped(Box::new(m))) {
        Action::MessageDialog(options, MessageDialogVariant::Confirmation { on_close, is_yes_no }, text) => {
            assert_eq!(options.level, MessageLevel::Warning);
            assert_eq!(options.title.as_deref(), Some("T"));
            assert!(!is_yes_no);
            assert_eq!(text.as_deref(), Some("Sure?"));
            assert_eq!(on_close.resume(false), Msg::Wrapped(Box::new(Msg::Declined)));
        }
        _ => panic!("expected a confirmation dialog"),
    }
    let informational = MessageDialogVariant::Informational(Msg::Closed);
    match informational.map(|m| Msg::Wrapped(Box::new(m))) {
        MessageDialogVariant::Informational(m) => assert_eq!(m, Msg::Wrapped(Box::new(Msg::Closed))),
        _ => panic!("expected an informational dialog"),
    }
}

#[test]
fn variants_describe_tag_and_flags() {
    let yes_no: MessageDialogVariant<Msg> =
        MessageDialogVariant::Confirmation { on_close: Continuation::new(confirm), is_yes_no: true };
    assert_eq!(yes_no.describe(), "Confirmation(Yes/No)");
    let okay: MessageDialogVariant<Msg> =
        MessageDialogVariant::Confirmation { on_close: Continuation::new(confirm), is_yes_no: false };
    assert_eq!(okay.describe(), "Confirmation(Okay/Cancel)");
    assert_eq!(MessageDialogVariant::Informational(Msg::Closed).describe(), "Informational");
    let save = FileDialogVariant::SingleFileDialog { is_save_dialog: true, on_select: Continuation::new(Msg::Picked) };
    assert_eq!(save.describe(), "SingleFileDialog(save)");
    let open = FileDialogVariant::SingleFileDialog { is_save_dialog: false, on_select: Continuation::new(Msg::Picked) };
    assert_eq!(open.describe(), "SingleFileDialog(open)");
    assert_eq!(FileDialogVariant::MultiFileDialog(Continuation::new(Msg::PickedMany)).describe(), "MultiFileDialog");
    assert_eq!(FileDialogVariant::FolderSelectDialog(Continuation::new(Msg::Picked)).describe(), "FolderSelectDialog");
}

#[test]
fn preset_filters() {
    let images = Filter::image_files();
    assert_eq!(images.name(), "Images");
    assert_eq!(images.extensions(), vec!["webp", "png", "jpg", "jpeg", "gif", "tiff"]);
    let audio = Filter::audio_files();
    assert_eq!(audio.name(), "Audio");
    assert_eq!(audio.extensions(), vec!["mp3", "wav", "ogg", "flac", "aac"]);
    let text = Filter::text_files();
    assert_eq!(text.name(), "Text");
    assert_eq!(text.extensions(), vec!["txt"]);
}

#[test]
fn message_options_compare_by_fields() {
    assert_eq!(MessageDialogOptions::info(), MessageDialogOptions::info());
    assert_ne!(MessageDialogOptions::info(), MessageDialogOptions::error());
    assert_ne!(MessageDialogOptions::info(), MessageDialogOptions::info().with_title("x"));
}

#[test]
fn message_request_renders_options_variant_and_text() {
    let d: Action<Msg> = Action::MessageDialog(
        MessageDialogOptions::info(),
        MessageDialogVariant::Informational(Msg::Closed),
        Some("hi".to_string()),
    );
    assert_eq!(
        d.describe(),
        "MessageDialog(MessageDialogOptions { level: Info, title: None }, Informational \"hi\")"
    );
    let titled: Action<Msg> = Action::MessageDialog(
        MessageDialogOptions::warning().with_title("Say \"x\""),
        MessageDialogVariant::Confirmation { on_close: Continuation::new(confirm), is_yes_no: false },
        None,
    );
    assert_eq!(
        titled.describe(),
        "MessageDialog(MessageDialogOptions { level: Warning, title: Some(\"Say \\\"x\\\"\") }, Confirmation(Okay/Cancel))"
    );
    assert_eq!(
        MessageDialogOptions::error().describe(),
        format!("{:?}", MessageDialogOptions::error())
    );
}

#[test]
fn file_request_renders_options_and_variant() {
    let options = FileDialogOptions::new_with_filters(&[Filter::new_const("Text", &["txt"])])
        .add_filter(Filter::new("Audio".to_string(), vec!["mp3".to_string(), "ogg".to_string()]))
        .with_initial_directory(PathBuf::from("/tmp"))
        .with_title("Pick");
    let expected_options = "FileDialogOptions { filters: [Static { name: \"Text\", extensions: [\"txt\"] }, \
        Owned { name: \"Audio\", extensions: [\"mp3\", \"ogg\"] }], initial_directory: Some(\"/tmp\"), \
        initial_filename: None, title: Some(\"Pick\") }";
    assert_eq!(options.describe(), expected_options);
    assert_eq!(options.describe(), format!("{:?}", options));
    let d = Action::FileDialog(
        options,
        FileDialogVariant::SingleFileDialog { is_save_dialog: true, on_select: Continuation::new(Msg::Picked) },
    );
    assert_eq!(d.describe(), format!("FileDialog({}, SingleFileDialog(save))", expected_options));
    let empty = FileDialogOptions::new();
    assert_eq!(
        empty.describe(),
        "FileDialogOptions { filters: [], initial_directory: None, initial_filename: None, title: None }"
    );
    let f = Filter::new_const("Music Files", &["mp3", "flac", "ogg"]);
    assert_eq!(f.describe(), format!("{:?}", f));
    assert_eq!(Filter::new("None".to_string(), Vec::new()).describe(), "Owned { name: \"None\", extensions: [] }");
}

#[test]
fn copied_filters_keep_their_kind() {
    let filters = [Filter::new_const("Text", &["txt"]), Filter::new("Audio".to_string(), vec!["mp3".to_string()])];
    let o = FileDialogOptions::new_with_filters(&filters);
    assert!(matches!(o.filters[0], Filter::Static { .. }));
    assert!(matches!(o.filters[1], Filter::Owned { .. }));
    assert_eq!(o.filters[0].describe(), filters[0].describe());
    assert_eq!(o.filters[1].describe(), filters[1].describe());
    assert!(matches!(filters[1].duplicate(), Filter::Owned { .. }));
}
