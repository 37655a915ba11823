use iced_dialog::clipboard;
use iced_dialog::command::action::{Action, Output, Pending, Task};
use iced_dialog::command::Command;
use iced_dialog::continuation::Continuation;
use iced_dialog::dialog::{self, MessageDialogOptions, MessageDialogVariant};
use iced_dialog::window;
use iced_futures::futures::executor::block_on;

fn resolve_read(action: Action<String>, contents: Option<String>) -> String {
    match action {
        Action::Clipboard(clipboard::Action::Read(k)) => k.resume(contents),
        _ => panic!("expected a clipboard read"),
    }
}

fn read_request(tag: &'static str) -> Action<String> {
    Action::Clipboard(clipboard::Action::Read(Continuation::new(move |c: Option<String>| {
        format!("{}:{}", tag, c.unwrap_or_default())
    })))
}

fn number_task(n: u32) -> Task<u32> {
    Task {
        pending: Pending(Box::pin(async move { Output(Box::new(n)) })),
        on_output: Continuation::new(|o: Output| *o.0.downcast::<u32>().unwrap()),
    }
}

fn run_task<T>(task: Task<T>) -> T {
    let Task { pending, on_output } = task;
    let output = block_on(pending.0);
    on_output.resume(output)
}

#[test]
fn map_composition_matches_composed_map() {
    let add_one = |n: u32| n + 1;
    let double = |n: u32| n * 2;
    for r in [0u32, 3, 10] {
        let k = Continuation::new(|r: u32| r + 5);
        let twice = k.map(add_one).map(double);
        let k = Continuation::new(|r: u32| r + 5);
        let once = k.map(move |n| double(add_one(n)));
        assert_eq!(twice.resume(r), once.resume(r));
    }
    let k = Continuation::new(|r: u32| r + 5).map(add_one).map(double);
    assert_eq!(k.resume(1), 14);
}

#[test]
fn identity_map_keeps_every_kind_of_request() {
    let read = read_request("r").map(|s| s);
    assert_eq!(resolve_read(read, Some("x".to_string())), "r:x");

    let write: Action<String> = Action::Clipboard(clipboard::Action::Write("hello".to_string()));
    match write.map(|s| s) {
        Action::Clipboard(clipboard::Action::Write(s)) => assert_eq!(s, "hello"),
        _ => panic!("expected a clipboard write"),
    }

    let resize: Action<u32> = Action::Window(window::Action::Resize { width: 800, height: 600 });
    match resize.map(|n| n) {
        Action::Window(w) => assert_eq!(w, window::Action::Resize { width: 800, height: 600 }),
        _ => panic!("expected a window request"),
    }

    match Action::Future(number_task(7)).map(|n| n) {
        Action::Future(t) => assert_eq!(run_task(t), 7),
        _ => panic!("expected a future"),
    }

    let d: Action<String> = Action::Dialog(dialog::Action::MessageDialog(
        MessageDialogOptions::info(),
        MessageDialogVariant::Informational("done".to_string()),
        Some("Finished".to_string()),
    ));
    match d.map(|s| s) {
        Action::Dialog(dialog::Action::MessageDialog(o, MessageDialogVariant::Informational(m), t)) => {
            assert_eq!(o.level, dialog::MessageLevel::Info);
            assert_eq!(m, "done");
            assert_eq!(t.as_deref(), Some("Finished"));
        }
        _ => panic!("expected an informational dialog"),
    }
}

#[test]
fn future_map_applies_to_output() {
    let task = number_task(20).map(|n| n + 1).map(|n| format!("got {}", n));
    assert_eq!(run_task(task), "got 21");
    match Action::Future(number_task(4)).map(|n| n * 10) {
        Action::Future(t) => assert_eq!(run_task(t), 40),
        _ => panic!("expected a future"),
    }
}

#[test]
fn batch_keeps_relative_order() {
    let batch = Command::batch(vec![Command::single(read_request("a1")), Command::single(read_request("a2"))]);
    let mut actions = batch.actions();
    assert_eq!(actions.len(), 2);
    let second = actions.pop().unwrap();
    let first = actions.pop().unwrap();
    assert_eq!(resolve_read(first, None), "a1:");
    assert_eq!(resolve_read(second, None), "a2:");
}

#[test]
fn batch_of_empty_and_several() {
    assert!(Command::<u32>::none().actions().is_empty());
    assert!(Command::<u32>::batch(Vec::new()).actions().is_empty());
    let three = Command::batch(vec![
        Command::batch(vec![Command::single(read_request("x")), Command::single(read_request("y"))]),
        Command::none(),
        Command::single(read_request("z")),
    ]);
    let got: Vec<String> = three.actions().into_iter().map(|a| resolve_read(a, Some("!".to_string()))).collect();
    assert_eq!(got, vec!["x:!", "y:!", "z:!"]);
}

#[test]
fn map_of_batch_equals_batch_of_maps() {
    let f = |s: String| s.len();
    let mapped_batch = Command::batch(vec![Command::single(read_request("a1")), Command::single(read_request("a2"))])
        .map(f);
    let batched_maps = Command::batch(vec![
        Command::single(read_request("a1")).map(f),
        Command::single(read_request("a2")).map(f),
    ]);
    let left: Vec<usize> = mapped_batch
        .actions()
        .into_iter()
        .map(|a| match a {
            Action::Clipboard(clipboard::Action::Read(k)) => k.resume(Some("abc".to_string())),
            _ => panic!("expected a clipboard read"),
        })
        .collect();
    let right: Vec<usize> = batched_maps
        .actions()
        .into_iter()
        .map(|a| match a {
            Action::Clipboard(clipboard::Action::Read(k)) => k.resume(Some("abc".to_string())),
            _ => panic!("expected a clipboard read"),
        })
        .collect();
    assert_eq!(left, vec![6, 6]);
    assert_eq!(left, right);
}

#[test]
fn command_map_reaches_dialogs() {
    let command = MessageDialogOptions::info()
        .show_confirmation_dialog(|b: bool| if b { 1u8 } else { 0u8 }, true, "Go?")
        .map(|n: u8| n + 100);
    let mut actions = command.actions();
    match actions.pop() {
        Some(Action::Dialog(dialog::Action::MessageDialog(_, MessageDialogVariant::Confirmation { on_close, .. }, _))) => {
            assert_eq!(on_close.resume(true), 101)
        }
        _ => panic!("expected a confirmation dialog"),
    }
}

#[test]
fn requests_describe_their_kind() {
    assert_eq!(Action::Future(number_task(1)).describe(), "Action::Future");
    assert_eq!(read_request("a").describe(), "Action::Clipboard(Read)");
    let write: Action<String> = Action::Clipboard(clipboard::Action::Write("w".to_string()));
    assert_eq!(write.describe(), "Action::Clipboard(Write)");
    let resize: Action<u8> = Action::Window(window::Action::Resize { width: 1, height: 2 });
    assert_eq!(resize.describe(), "Action::Window(Resize { width: 1, height: 2 })");
    let moved: Action<u8> = Action::Window(window::Action::Move { x: -3, y: 4 });
    assert_eq!(moved.describe(), "Action::Window(Move { x: -3, y: 4 })");
    let w = window::Action::Resize { width: 4294967295, height: 0 };
    assert_eq!(w.describe(), format!("{:?}", w));
    let mut actions = MessageDialogOptions::info()
        .show_confirmation_dialog(|b: bool| b, true, "Go?")
        .actions();
    let request = actions.pop().unwrap();
    assert_eq!(
        request.describe(),
        "Action::Dialog(MessageDialog(MessageDialogOptions { level: Info, title: None }, Confirmation(Yes/No) \"Go?\"))"
    );
    let informational = dialog::error("bad", 0u8).actions().pop().unwrap();
    assert_eq!(
        informational.describe(),
        "Action::Dialog(MessageDialog(MessageDialogOptions { level: Error, title: None }, Informational \"bad\"))"
    );
}

#[test]
fn dialog_request_converts_into_a_command() {
    let file = dialog::Action::FileDialog(
        dialog::FileDialogOptions::new(),
        dialog::FileDialogVariant::FolderSelectDialog(Continuation::new(|p: Option<std::path::PathBuf>| p.is_some())),
    );
    assert_eq!(
        file.describe(),
        "FileDialog(FileDialogOptions { filters: [], initial_directory: None, initial_filename: None, title: None }, FolderSelectDialog)"
    );
    let command: Command<bool> = file.into();
    let mut actions = command.actions();
    assert_eq!(actions.len(), 1);
    match actions.pop() {
        Some(Action::Dialog(dialog::Action::FileDialog(o, dialog::FileDialogVariant::FolderSelectDialog(k)))) => {
            assert!(o.filters.is_empty());
            assert!(!k.resume(None));
        }
        _ => panic!("expected a folder dialog"),
    }
}

#[test]
fn window_requests_render_integer_extremes() {
    for w in [
        window::Action::Move { x: i32::MIN, y: i32::MAX },
        window::Action::Move { x: 0, y: -10 },
        window::Action::Resize { width: 0, height: 1234567890 },
    ] {
        assert_eq!(w.describe(), format!("{:?}", w));
    }
}
