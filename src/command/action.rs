//! One requested effect, of one of four kinds.
use vstd::prelude::*;

use crate::clipboard;
use crate::dialog;
use crate::window;
use vstd::string::StringExecFns;
use crate::continuation::{
    lemma_map_composition as lemma_continuation_composition,
    lemma_map_identity as lemma_continuation_identity, lemma_mapped_same, Continuation,
};
use crate::dialog::lemma_dialog_map_composition;

verus! {

/// A future, started by the runtime, whose output is handed to a task's
/// continuation. It holds an `iced_futures::BoxFuture`, a boxed
/// `dyn Future + Send` that Verus cannot declare, so the holder is opaque:
/// verified code only moves it.
#[verifier::external_body]
pub struct Pending(pub iced_futures::BoxFuture<Output>);

/// What a pending future yields, of a type that only its continuation knows.
/// It holds a boxed `dyn Any + Send`, which Verus cannot declare, so the
/// holder is opaque: verified code only moves it.
#[verifier::external_body]
pub struct Output(pub Box<dyn std::any::Any + Send>);

/// A pending computation and the continuation that turns what it yields
/// into a message.
///
/// Mapping a task composes onto the continuation; the future is never
/// rebuilt. A future mapped in place would be a new `dyn Future + Send`
/// value, which Verus cannot hold. The future's output is type-erased,
/// and the continuation recovers its type. Whoever builds a task must pair
/// the future with a continuation that expects what the future yields:
/// the fields are public, and nothing here checks that pairing.
#[verifier::reject_recursive_types(T)]
pub struct Task<T> {
    pub pending: Pending,
    pub on_output: Continuation<Output, T>,
}

impl<T> Task<T> {
    /// Composes `f` after the task's continuation; the future itself is
    /// neither started nor awaited.
    pub fn map<A, F: FnOnce(T) -> A + 'static>(self, f: F) -> (r: Task<A>)
        where T: 'static, A: 'static,
        requires
            self.on_output.wf(),
            forall|t: T| call_requires(f, (t,)),
        ensures
            r.pending == self.pending,
            r.on_output.wf(),
            r.on_output.mapped_from(self.on_output, f),
    {
        Task { pending: self.pending, on_output: self.on_output.map(f) }
    }
}

/// A request for outside work, with what turns its result into a message.
#[verifier::reject_recursive_types(T)]
pub enum Action<T> {
    /// Run a future to completion.
    Future(Task<T>),
    /// Read or write the clipboard.
    Clipboard(clipboard::Action<T>),
    /// Change the window.
    Window(window::Action),
    /// Open a dialog.
    Dialog(dialog::Action<T>),
}

impl<T> Action<T> {
    /// Every continuation held by the request can be resumed with any result.
    pub open spec fn wf(&self) -> bool {
        match self {
            Action::Future(t) => t.on_output.wf(),
            Action::Clipboard(a) => a.wf(),
            Action::Window(_) => true,
            Action::Dialog(a) => a.wf(),
        }
    }

    /// `self` is what mapping `f` over `src` gives: the same kind of request,
    /// with `f` composed after each continuation.
    pub open spec fn mapped_from<T0, F: FnOnce(T0) -> T>(&self, src: Action<T0>, f: F) -> bool {
        match (self, src) {
            (Action::Future(t), Action::Future(t0)) => {
                t.pending == t0.pending && t.on_output.mapped_from(t0.on_output, f)
            },
            (Action::Clipboard(a), Action::Clipboard(a0)) => a.mapped_from(a0, f),
            (Action::Window(w), Action::Window(w0)) => *w == w0,
            (Action::Dialog(a), Action::Dialog(a0)) => a.mapped_from(a0, f),
            _ => false,
        }
    }

    /// Both requests do the same thing and produce the same messages.
    pub open spec fn same_behaviour(&self, other: Action<T>) -> bool {
        match (self, other) {
            (Action::Future(t), Action::Future(t0)) => {
                t.pending == t0.pending && t.on_output.same_behaviour(t0.on_output)
            },
            (Action::Clipboard(a), Action::Clipboard(a0)) => a.same_behaviour(a0),
            (Action::Window(w), Action::Window(w0)) => *w == w0,
            (Action::Dialog(a), Action::Dialog(a0)) => a.same_behaviour(a0),
            _ => false,
        }
    }

    /// The request's kind and its payload, as diagnostics show them; a
    /// future and a continuation show nothing of what they hold.
    pub open spec fn label(&self) -> Seq<char> {
        match self {
            Action::Future(_) => "Action::Future"@,
            Action::Clipboard(clipboard::Action::Read(_)) => "Action::Clipboard(Read)"@,
            Action::Clipboard(clipboard::Action::Write(_)) => "Action::Clipboard(Write)"@,
            Action::Window(w) => "Action::Window("@ + w.label() + ")"@,
            Action::Dialog(d) => "Action::Dialog("@ + d.label() + ")"@,
        }
    }

    /// Describes the request for diagnostics, without its continuation.
    pub fn describe(&self) -> (r: String)
        ensures
            r@ == self.label(),
    {
        match self {
            Action::Future(_) => "Action::Future".to_owned(),
            Action::Clipboard(clipboard::Action::Read(_)) => "Action::Clipboard(Read)".to_owned(),
            Action::Clipboard(clipboard::Action::Write(_)) => "Action::Clipboard(Write)".to_owned(),
            Action::Window(w) => {
                let mut r = "Action::Window(".to_owned();
                let inner = w.describe();
                r.append(inner.as_str());
                r.append(")");
                r
            },
            Action::Dialog(d) => {
                let mut r = "Action::Dialog(".to_owned();
                let inner = d.describe();
                r.append(inner.as_str());
                r.append(")");
                r
            },
        }
    }

    /// Applies `f` to the message that this request produces. Nothing runs:
    /// the result is another description.
    pub fn map<A, F: FnOnce(T) -> A + 'static>(self, f: F) -> (r: Action<A>)
        where T: 'static, A: 'static,
        requires
            self.wf(),
            forall|t: T| call_requires(f, (t,)),
        ensures
            r.wf(),
            r.mapped_from(self, f),
    {
        match self {
            Action::Future(t) => Action::Future(t.map(f)),
            Action::Clipboard(a) => Action::Clipboard(a.map(f)),
            Action::Window(w) => Action::Window(w),
            Action::Dialog(a) => Action::Dialog(a.map(f)),
        }
    }
}

/// Mapping the identity over any request gives a request that does the same
/// thing and produces the same messages.
pub proof fn lemma_map_identity<T, I: FnOnce(T) -> T>(a: Action<T>, id: I, b: Action<T>)
    requires
        forall|t: T, u: T| #[trigger] call_ensures(id, (t,), u) <==> u == t,
        b.mapped_from(a, id),
    ensures
        b.same_behaviour(a),
{
    match (b, a) {
        (Action::Future(t), Action::Future(t0)) => {
            lemma_continuation_identity(t0.on_output, id, t.on_output);
        },
        (Action::Clipboard(clipboard::Action::Read(k)), Action::Clipboard(clipboard::Action::Read(k0))) => {
            lemma_continuation_identity(k0, id, k);
        },
        (Action::Dialog(dialog::Action::MessageDialog(_, v, _)), Action::Dialog(dialog::Action::MessageDialog(_, v0, _))) => {
            match (v, v0) {
                (
                    dialog::MessageDialogVariant::Confirmation { on_close: k, .. },
                    dialog::MessageDialogVariant::Confirmation { on_close: k0, .. },
                ) => {
                    lemma_continuation_identity(k0, id, k);
                },
                _ => {},
            }
        },
        (Action::Dialog(dialog::Action::FileDialog(_, v)), Action::Dialog(dialog::Action::FileDialog(_, v0))) => {
            match (v, v0) {
                (
                    dialog::FileDialogVariant::SingleFileDialog { on_select: k, .. },
                    dialog::FileDialogVariant::SingleFileDialog { on_select: k0, .. },
                ) => {
                    lemma_continuation_identity(k0, id, k);
                },
                (dialog::FileDialogVariant::MultiFileDialog(k), dialog::FileDialogVariant::MultiFileDialog(k0)) => {
                    lemma_continuation_identity(k0, id, k);
                },
                (dialog::FileDialogVariant::FolderSelectDialog(k), dialog::FileDialogVariant::FolderSelectDialog(k0)) => {
                    lemma_continuation_identity(k0, id, k);
                },
                _ => {},
            }
        },
        _ => {},
    }
}

/// Two requests mapped from the same one by the same pure function do the
/// same thing and produce the same messages.
pub proof fn lemma_mapped_same_request<T0, T, F: FnOnce(T0) -> T>(a: Action<T0>, f: F, x: Action<T>, y: Action<T>)
    requires
        forall|t: T0, u: T, v: T| call_ensures(f, (t,), u) && call_ensures(f, (t,), v) ==> u == v,
        x.mapped_from(a, f),
        y.mapped_from(a, f),
    ensures
        x.same_behaviour(y),
{
    match (x, y, a) {
        (Action::Future(t), Action::Future(u), Action::Future(t0)) => {
            lemma_mapped_same(t0.on_output, f, t.on_output, u.on_output);
        },
        (
            Action::Clipboard(clipboard::Action::Read(k)),
            Action::Clipboard(clipboard::Action::Read(l)),
            Action::Clipboard(clipboard::Action::Read(k0)),
        ) => {
            lemma_mapped_same(k0, f, k, l);
        },
        (
            Action::Dialog(dialog::Action::MessageDialog(_, v, _)),
            Action::Dialog(dialog::Action::MessageDialog(_, w, _)),
            Action::Dialog(dialog::Action::MessageDialog(_, v0, _)),
        ) => {
            match (v, w, v0) {
                (
                    dialog::MessageDialogVariant::Confirmation { on_close: k, .. },
                    dialog::MessageDialogVariant::Confirmation { on_close: l, .. },
                    dialog::MessageDialogVariant::Confirmation { on_close: k0, .. },
                ) => {
                    lemma_mapped_same(k0, f, k, l);
                },
                _ => {},
            }
        },
        (
            Action::Dialog(dialog::Action::FileDialog(_, v)),
            Action::Dialog(dialog::Action::FileDialog(_, w)),
            Action::Dialog(dialog::Action::FileDialog(_, v0)),
        ) => {
            match (v, w, v0) {
                (
                    dialog::FileDialogVariant::SingleFileDialog { on_select: k, .. },
                    dialog::FileDialogVariant::SingleFileDialog { on_select: l, .. },
                    dialog::FileDialogVariant::SingleFileDialog { on_select: k0, .. },
                ) => {
                    lemma_mapped_same(k0, f, k, l);
                },
                (
                    dialog::FileDialogVariant::MultiFileDialog(k),
                    dialog::FileDialogVariant::MultiFileDialog(l),
                    dialog::FileDialogVariant::MultiFileDialog(k0),
                ) => {
                    lemma_mapped_same(k0, f, k, l);
                },
                (
                    dialog::FileDialogVariant::FolderSelectDialog(k),
                    dialog::FileDialogVariant::FolderSelectDialog(l),
                    dialog::FileDialogVariant::FolderSelectDialog(k0),
                ) => {
                    lemma_mapped_same(k0, f, k, l);
                },
                _ => {},
            }
        },
        _ => {},
    }
}

/// Mapping pure functions `f` and then `g` over any request gives a request
/// that does the same as mapping once with their composition `h`.
pub proof fn lemma_map_composition<A, B, C, F: FnOnce(A) -> B, G: FnOnce(B) -> C, H: FnOnce(A) -> C>(
    a: Action<A>,
    f: F,
    g: G,
    h: H,
    af: Action<B>,
    afg: Action<C>,
    ah: Action<C>,
)
    requires
        forall|x: A, y1: B, y2: B| call_ensures(f, (x,), y1) && call_ensures(f, (x,), y2) ==> y1 == y2,
        forall|x: B, y1: C, y2: C| call_ensures(g, (x,), y1) && call_ensures(g, (x,), y2) ==> y1 == y2,
        forall|x: A, z: C|
            #[trigger] call_ensures(h, (x,), z) <==> exists|y: B|
                call_ensures(f, (x,), y) && call_ensures(g, (y,), z),
        af.mapped_from(a, f),
        afg.mapped_from(af, g),
        ah.mapped_from(a, h),
    ensures
        afg.same_behaviour(ah),
{
    match (afg, af, ah, a) {
        (Action::Future(t2), Action::Future(t1), Action::Future(th), Action::Future(t0)) => {
            lemma_continuation_composition(t0.on_output, f, g, h, t1.on_output, t2.on_output, th.on_output);
        },
        (
            Action::Clipboard(clipboard::Action::Read(k2)),
            Action::Clipboard(clipboard::Action::Read(k1)),
            Action::Clipboard(clipboard::Action::Read(kh)),
            Action::Clipboard(clipboard::Action::Read(k0)),
        ) => {
            lemma_continuation_composition(k0, f, g, h, k1, k2, kh);
        },
        (Action::Dialog(d2), Action::Dialog(d1), Action::Dialog(dh), Action::Dialog(d0)) => {
            lemma_dialog_map_composition(d0, f, g, h, d1, d2, dh);
        },
        _ => {},
    }
}

} // verus!
