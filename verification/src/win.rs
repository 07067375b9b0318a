//! The window controller: one top-level window, a push button and a
//! text-entry field as its children, and the event-dispatch state machine
//! that echoes the entered text in a modal message dialog.
//!
//! The controller is modelled as plain state (`Win`): the native layer that
//! feeds it real platform events performs the matching windowing calls and
//! is kept outside the library. Every decision — what each event changes,
//! what the button press reads and shows, when the message loop ends — is
//! made and verified here, against the transition function `step` and the
//! loop function `run`.

use vstd::prelude::*;
use crate::text::{utf16, utf16_units, to_wstring, lemma_utf16_len};

verus! {

/// Control id of the push button.
pub const BTN: u32 = 1;

/// Control id of the text-entry field.
pub const EDT: u32 = 2;

/// Message kind delivered when a window is being created.
pub const WM_CREATE: u32 = 0x0001;

/// Message kind delivered when a window is being destroyed.
pub const WM_DESTROY: u32 = 0x0002;

/// Message kind delivered when a child control was activated.
pub const WM_COMMAND: u32 = 0x0111;

/// The kind of a child control.
#[derive(Clone, Copy, PartialEq, Eq, Structural, Debug)]
pub enum ControlKind {
    Button,
    Edit,
}

/// An event delivered by the platform to the window's callback.
#[derive(Clone, Copy, PartialEq, Eq, Structural, Debug)]
pub enum Event {
    Create,
    Destroy,
    Command { id: u32 },
    Other,
}

/// What the callback does with an event, beyond default platform handling.
#[derive(Clone, Copy, PartialEq, Eq, Structural, Debug)]
pub enum Action {
    /// Stash the controller's address on the window.
    StoreUserData,
    /// Post the quit event that ends the message loop.
    PostQuit,
    /// Read the edit control's text and show it in a message dialog.
    EchoEditText,
    /// Nothing; the platform's default handling alone applies.
    Ignore,
}

/// A child control of the window.
#[derive(Clone, PartialEq, Eq, Debug)]
pub struct Control {
    pub kind: ControlKind,
    pub id: u32,
    pub x: i32,
    pub y: i32,
    pub width: i32,
    pub height: i32,
    /// Current text: the button's label, or the edit field's contents,
    /// as UTF-16 units without a terminator.
    pub text: Vec<u16>,
}

/// A modal message dialog that was displayed.
#[derive(Clone, PartialEq, Eq, Debug)]
pub struct Dialog {
    pub title: Vec<u16>,
    pub body: Vec<u16>,
}

/// The mathematical state of a control.
#[verifier::ext_equal]
pub struct ControlV {
    pub kind: ControlKind,
    pub id: u32,
    pub x: i32,
    pub y: i32,
    pub width: i32,
    pub height: i32,
    pub text: Seq<u16>,
}

/// The mathematical state of a displayed dialog.
#[verifier::ext_equal]
pub struct DialogV {
    pub title: Seq<u16>,
    pub body: Seq<u16>,
}

/// The mathematical state of the window controller.
#[verifier::ext_equal]
pub struct WinV {
    /// The window title, which also names its window class.
    pub title: Seq<u16>,
    pub width: i32,
    pub height: i32,
    pub controls: Seq<ControlV>,
    pub visible: bool,
    /// Whether the initial paint was forced.
    pub painted: bool,
    /// Whether the controller's address was stashed on the window.
    pub user_data_set: bool,
    /// The exit code of a posted quit event, once one was posted.
    pub quit_code: Option<u32>,
    /// Every message dialog displayed so far, in order.
    pub dialogs: Seq<DialogV>,
}

impl View for Control {
    type V = ControlV;

    open spec fn view(&self) -> ControlV {
        ControlV {
            kind: self.kind,
            id: self.id,
            x: self.x,
            y: self.y,
            width: self.width,
            height: self.height,
            text: self.text@,
        }
    }
}

impl View for Dialog {
    type V = DialogV;

    open spec fn view(&self) -> DialogV {
        DialogV { title: self.title@, body: self.body@ }
    }
}

/// No two controls share an id.
pub open spec fn unique_ids(cs: Seq<ControlV>) -> bool {
    forall|i: int, j: int| 0 <= i < j < cs.len() ==> cs[i].id != cs[j].id
}

/// Well-formed controller state: control ids are unique within the window,
/// and each text is short enough that a buffer one unit longer still has a
/// length that fits in `usize`.
pub open spec fn wf_state(w: WinV) -> bool {
    &&& unique_ids(w.controls)
    &&& forall|i: int| 0 <= i < w.controls.len() ==> w.controls[i].text.len() < usize::MAX
}

/// The first control carrying the given id, if any.
pub open spec fn find_control(cs: Seq<ControlV>, id: u32) -> Option<ControlV>
    decreases cs.len(),
{
    if cs.len() == 0 {
        None
    } else if cs[0].id == id {
        Some(cs[0])
    } else {
        find_control(cs.skip(1), id)
    }
}

/// The units a reader of wide strings takes from a buffer: everything
/// before the first nul, or the whole buffer if it holds none.
pub open spec fn until_nul(s: Seq<u16>) -> Seq<u16>
    decreases s.len(),
{
    if s.len() == 0 {
        s
    } else if s[0] == 0u16 {
        Seq::empty()
    } else {
        seq![s[0]] + until_nul(s.skip(1))
    }
}

/// What a text read leaves in a caller's buffer of the given length: as
/// much of the text as fits while leaving room for a terminating nul, then
/// the nul. A zero-length buffer receives nothing.
pub open spec fn text_read(text: Seq<u16>, buf_len: int) -> Seq<u16> {
    if buf_len <= 0 {
        Seq::empty()
    } else if text.len() <= buf_len - 1 {
        text.push(0u16)
    } else {
        text.take(buf_len - 1).push(0u16)
    }
}

/// The edit control's text, empty when the window has no edit control.
pub open spec fn edit_text(w: WinV) -> Seq<u16> {
    match find_control(w.controls, EDT) {
        Some(c) => c.text,
        None => Seq::empty(),
    }
}

/// The fixed title of the echo dialog: "Message" in UTF-16.
pub open spec fn msg_title() -> Seq<u16> {
    seq![77u16, 101u16, 115u16, 115u16, 97u16, 103u16, 101u16]
}

/// What the callback decides to do with an event.
pub open spec fn decide_spec(e: Event) -> Action {
    match e {
        Event::Create => Action::StoreUserData,
        Event::Destroy => Action::PostQuit,
        Event::Command { id } => if id == BTN {
            Action::EchoEditText
        } else {
            Action::Ignore
        },
        Event::Other => Action::Ignore,
    }
}

/// The dispatch state machine: what one event changes.
///
/// Creation stashes the controller's address; destruction posts a quit
/// event with exit code 0; a command from the button reads the edit text
/// and displays it in a dialog titled "Message"; every other command and
/// every other event kind changes nothing.
pub open spec fn step(w: WinV, e: Event) -> WinV {
    match e {
        Event::Create => (WinV { user_data_set: true, ..w }),
        Event::Destroy => (WinV { quit_code: Some(0u32), ..w }),
        Event::Command { id } => if id == BTN {
            (WinV {
                dialogs: w.dialogs.push(DialogV { title: msg_title(), body: until_nul(edit_text(w)) }),
                ..w
            })
        } else {
            w
        },
        Event::Other => w,
    }
}

/// The message loop over a queue of pending events: each iteration first
/// returns if a quit event was posted, else dispatches the next event.
/// When the queue runs dry without a posted quit, the state so far is the
/// result (the real loop would block for further input there).
pub open spec fn run(w: WinV, events: Seq<Event>) -> WinV
    decreases events.len(),
{
    if w.quit_code is Some || events.len() == 0 {
        w
    } else {
        run(step(w, events[0]), events.skip(1))
    }
}

/// The assembled user interface: both controls present, ids and kinds as
/// fixed, the window visible.
pub open spec fn startup_ok(w: WinV) -> bool {
    &&& w.controls.len() == 2
    &&& w.controls[0].kind == ControlKind::Button
    &&& w.controls[0].id == BTN
    &&& w.controls[1].kind == ControlKind::Edit
    &&& w.controls[1].id == EDT
    &&& w.visible
}

/// A control whose id occurs at an index is what `find_control` returns,
/// when ids are unique.
pub proof fn lemma_find_control_at(cs: Seq<ControlV>, i: int, id: u32)
    requires
        unique_ids(cs),
        0 <= i < cs.len(),
        cs[i].id == id,
    ensures
        find_control(cs, id) == Some(cs[i]),
    decreases cs.len(),
{
    if i > 0 {
        assert(cs[0].id != id);
        lemma_find_control_at(cs.skip(1), i - 1, id);
    }
}

/// A buffer without a nul is taken whole.
pub proof fn lemma_until_nul_no_nul(s: Seq<u16>)
    requires
        forall|i: int| 0 <= i < s.len() ==> s[i] != 0u16,
    ensures
        until_nul(s) == s,
    decreases s.len(),
{
    if s.len() > 0 {
        lemma_until_nul_no_nul(s.skip(1));
        assert(until_nul(s) =~= s);
    }
}

/// A terminating nul adds nothing to what a reader takes.
pub proof fn lemma_until_nul_push_nul(s: Seq<u16>)
    ensures
        until_nul(s.push(0u16)) == until_nul(s),
    decreases s.len(),
{
    if s.len() == 0 {
        assert(s.push(0u16)[0] == 0u16);
        assert(until_nul(s.push(0u16)) =~= until_nul(s));
    } else if s[0] == 0u16 {
        assert(s.push(0u16)[0] == 0u16);
    } else {
        assert(s.push(0u16).skip(1) =~= s.skip(1).push(0u16));
        lemma_until_nul_push_nul(s.skip(1));
    }
}

/// The echo dialog's title: what a reader takes from the wide form of
/// "Message" is exactly `msg_title`.
proof fn lemma_msg_title()
    ensures
        until_nul(utf16("Message"@).push(0u16)) == msg_title(),
{
    reveal_strlit("Message");
    let s = "Message"@;
    assert(utf16(s) =~= msg_title()) by {
        reveal_with_fuel(utf16, 8);
        assert(s.len() == 7);
        assert(s.drop_last() =~= s.take(6));
        assert(s.take(6).drop_last() =~= s.take(5));
        assert(s.take(5).drop_last() =~= s.take(4));
        assert(s.take(4).drop_last() =~= s.take(3));
        assert(s.take(3).drop_last() =~= s.take(2));
        assert(s.take(2).drop_last() =~= s.take(1));
        assert(s.take(1).drop_last() =~= s.take(0));
    }
    lemma_until_nul_push_nul(utf16(s));
    lemma_until_nul_no_nul(msg_title());
}

/// The window controller.
#[derive(Clone, PartialEq, Eq, Debug)]
pub struct Win {
    pub title: Vec<u16>,
    pub width: i32,
    pub height: i32,
    pub controls: Vec<Control>,
    pub visible: bool,
    pub painted: bool,
    pub user_data_set: bool,
    pub quit_code: Option<u32>,
    pub dialogs: Vec<Dialog>,
}

impl View for Win {
    type V = WinV;

    open spec fn view(&self) -> WinV {
        WinV {
            title: self.title@,
            width: self.width,
            height: self.height,
            controls: self.controls@.map_values(|c: Control| c@),
            visible: self.visible,
            painted: self.painted,
            user_data_set: self.user_data_set,
            quit_code: self.quit_code,
            dialogs: self.dialogs@.map_values(|d: Dialog| d@),
        }
    }
}

/// The callback's decision for an event, for the layer that performs the
/// matching windowing calls.
pub fn decide(e: Event) -> (a: Action)
    ensures
        a == decide_spec(e),
{
    match e {
        Event::Create => Action::StoreUserData,
        Event::Destroy => Action::PostQuit,
        Event::Command { id } => {
            if id == BTN {
                Action::EchoEditText
            } else {
                Action::Ignore
            }
        },
        Event::Other => Action::Ignore,
    }
}

/// Sorts a raw platform message into an event of the dispatch machine.
pub fn classify(msg: u32, wparam: u32) -> (e: Event)
    ensures
        e == (if msg == WM_CREATE {
            Event::Create
        } else if msg == WM_DESTROY {
            Event::Destroy
        } else if msg == WM_COMMAND {
            (Event::Command { id: wparam })
        } else {
            Event::Other
        }),
{
    if msg == WM_CREATE {
        Event::Create
    } else if msg == WM_DESTROY {
        Event::Destroy
    } else if msg == WM_COMMAND {
        Event::Command { id: wparam }
    } else {
        Event::Other
    }
}

impl Win {
    /// Creates the top-level window: registers its class under the given
    /// title, makes it visible at the given size, and — as window creation
    /// delivers the create event to the callback — stashes the controller's
    /// address before returning.
    pub fn new(title: &str, width: i32, height: i32) -> (w: Win)
        ensures
            w@ == (WinV {
                title: utf16(title@),
                width,
                height,
                controls: Seq::empty(),
                visible: true,
                painted: false,
                user_data_set: true,
                quit_code: None,
                dialogs: Seq::empty(),
            }),
            wf_state(w@),
    {
        let mut w = Win {
            title: utf16_units(title),
            width,
            height,
            controls: Vec::new(),
            visible: true,
            painted: false,
            user_data_set: false,
            quit_code: None,
            dialogs: Vec::new(),
        };
        w.windowproc(Event::Create);
        proof {
            assert(w@ =~= (WinV {
                title: utf16(title@),
                width,
                height,
                controls: Seq::empty(),
                visible: true,
                painted: false,
                user_data_set: true,
                quit_code: None,
                dialogs: Seq::empty(),
            }));
        }
        w
    }

    /// Adds a visible push-button child with the given label, position,
    /// size and id.
    pub fn add_button(&mut self, title: &str, x: i32, y: i32, width: i32, height: i32, id: u32)
        requires
            wf_state(old(self)@),
            forall|k: int| 0 <= k < old(self)@.controls.len() ==> old(self)@.controls[k].id != id,
            2 * title@.len() < usize::MAX,
        ensures
            final(self)@ == (WinV {
                controls: old(self)@.controls.push(ControlV {
                    kind: ControlKind::Button,
                    id,
                    x,
                    y,
                    width,
                    height,
                    text: utf16(title@),
                }),
                ..old(self)@
            }),
            wf_state(final(self)@),
    {
        let text = utf16_units(title);
        proof {
            lemma_utf16_len(title@);
        }
        self.controls.push(Control { kind: ControlKind::Button, id, x, y, width, height, text });
        proof {
            assert(self@.controls =~= old(self)@.controls.push(ControlV {
                kind: ControlKind::Button,
                id,
                x,
                y,
                width,
                height,
                text: utf16(title@),
            }));
            assert(self@ =~= (WinV { controls: self@.controls, ..old(self)@ }));
        }
    }

    /// Adds a visible, bordered, vertically scrollable text-entry child
    /// with the given initial text, position, size and id.
    pub fn add_edit(&mut self, title: &str, x: i32, y: i32, width: i32, height: i32, id: u32)
        requires
            wf_state(old(self)@),
            forall|k: int| 0 <= k < old(self)@.controls.len() ==> old(self)@.controls[k].id != id,
            2 * title@.len() < usize::MAX,
        ensures
            final(self)@ == (WinV {
                controls: old(self)@.controls.push(ControlV {
                    kind: ControlKind::Edit,
                    id,
                    x,
                    y,
                    width,
                    height,
                    text: utf16(title@),
                }),
                ..old(self)@
            }),
            wf_state(final(self)@),
    {
        let text = utf16_units(title);
        proof {
            lemma_utf16_len(title@);
        }
        self.controls.push(Control { kind: ControlKind::Edit, id, x, y, width, height, text });
        proof {
            assert(self@.controls =~= old(self)@.controls.push(ControlV {
                kind: ControlKind::Edit,
                id,
                x,
                y,
                width,
                height,
                text: utf16(title@),
            }));
            assert(self@ =~= (WinV { controls: self@.controls, ..old(self)@ }));
        }
    }

    /// Forces the window's initial paint.
    pub fn update(&mut self)
        ensures
            final(self)@ == (WinV { painted: true, ..old(self)@ }),
    {
        self.painted = true;
        proof {
            assert(self@ =~= (WinV { painted: true, ..old(self)@ }));
        }
    }

    /// Looks a child control up by id, as the dialog-item query does:
    /// the index of the first control with that id, or nothing.
    pub fn get_dlg_item(&self, id: u32) -> (r: Option<usize>)
        ensures
            match r {
                Some(i) => i < self@.controls.len()
                    && self@.controls[i as int].id == id
                    && find_control(self@.controls, id) == Some(self@.controls[i as int]),
                None => find_control(self@.controls, id) is None,
            },
    {
        let mut j: usize = 0;
        proof {
            assert(self@.controls.skip(0) =~= self@.controls);
        }
        while j < self.controls.len()
            invariant
                j <= self@.controls.len(),
                find_control(self@.controls, id) == find_control(self@.controls.skip(j as int), id),
                forall|k: int| 0 <= k < j ==> self@.controls[k].id != id,
            decreases self@.controls.len() - j,
        {
            if self.controls[j].id == id {
                proof {
                    assert(self@.controls.skip(j as int)[0] == self@.controls[j as int]);
                }
                return Some(j);
            }
            proof {
                assert(self@.controls.skip(j as int).skip(1) =~= self@.controls.skip(j as int + 1));
            }
            j = j + 1;
        }
        proof {
            assert(self@.controls.skip(j as int) =~= Seq::<ControlV>::empty());
        }
        None
    }

    /// The length, in UTF-16 units, of a control's text — the length query
    /// a caller makes before sizing its read buffer.
    pub fn get_window_text_length(&self, i: usize) -> (len: usize)
        requires
            i < self@.controls.len(),
        ensures
            len == self@.controls[i as int].text.len(),
    {
        self.controls[i].text.len()
    }

    /// Copies a control's text into a fresh buffer of the given length:
    /// as much as fits while leaving room for the terminating nul.
    pub fn get_window_text(&self, i: usize, buf_len: usize) -> (buf: Vec<u16>)
        requires
            i < self@.controls.len(),
        ensures
            buf@ == text_read(self@.controls[i as int].text, buf_len as int),
    {
        let mut buf: Vec<u16> = Vec::new();
        if buf_len == 0 {
            return buf;
        }
        let text_len = self.controls[i].text.len();
        let n = if text_len <= buf_len - 1 {
            text_len
        } else {
            buf_len - 1
        };
        let mut j: usize = 0;
        while j < n
            invariant
                j <= n,
                i < self@.controls.len(),
                n <= self@.controls[i as int].text.len(),
                buf@ =~= self@.controls[i as int].text.take(j as int),
            decreases n - j,
        {
            let u = self.controls[i].text[j];
            buf.push(u);
            proof {
                assert(buf@ =~= self@.controls[i as int].text.take(j as int + 1));
            }
            j = j + 1;
        }
        buf.push(0u16);
        proof {
            let t = self@.controls[i as int].text;
            if text_len <= buf_len - 1 {
                assert(t.take(n as int) =~= t);
            }
        }
        buf
    }

    /// Replaces a control's text, as the user's typing does between
    /// events; everything else is untouched.
    pub fn set_control_text(&mut self, i: usize, text: Vec<u16>)
        requires
            i < old(self)@.controls.len(),
            text@.len() < usize::MAX,
        ensures
            final(self)@ == (WinV {
                controls: old(self)@.controls.update(
                    i as int,
                    (ControlV { text: text@, ..old(self)@.controls[i as int] }),
                ),
                ..old(self)@
            }),
    {
        self.controls[i].text = text;
        proof {
            assert(self@.controls =~= old(self)@.controls.update(
                i as int,
                (ControlV { text: text@, ..old(self)@.controls[i as int] }),
            ));
            assert(self@ =~= (WinV { controls: self@.controls, ..old(self)@ }));
        }
    }

    /// Displays a modal message dialog: of each wide buffer, what stands
    /// before its first nul is shown, and the dialog is recorded.
    fn show_message(&mut self, body_buf: &Vec<u16>, title_buf: &Vec<u16>)
        ensures
            final(self)@ == (WinV {
                dialogs: old(self)@.dialogs.push(DialogV {
                    title: until_nul(title_buf@),
                    body: until_nul(body_buf@),
                }),
                ..old(self)@
            }),
    {
        let title = take_until_nul(title_buf);
        let body = take_until_nul(body_buf);
        self.dialogs.push(Dialog { title, body });
        proof {
            assert(self@.dialogs =~= old(self)@.dialogs.push(DialogV {
                title: until_nul(title_buf@),
                body: until_nul(body_buf@),
            }));
            assert(self@ =~= (WinV { dialogs: self@.dialogs, ..old(self)@ }));
        }
    }

    /// The command dispatch: the button's id makes the controller read the
    /// edit text — length query first, then a copy into a buffer sized one
    /// unit longer — and show it in a dialog titled "Message"; any other id
    /// is a no-op. Returns 1, as the callback reports commands handled.
    pub fn procedures(&mut self, wparam: u32) -> (r: i32)
        requires
            wf_state(old(self)@),
        ensures
            r == 1,
            final(self)@ == step(old(self)@, (Event::Command { id: wparam })),
            wf_state(final(self)@),
    {
        if wparam == BTN {
            let body_buf: Vec<u16>;
            match self.get_dlg_item(EDT) {
                Some(i) => {
                    let len = self.get_window_text_length(i);
                    body_buf = self.get_window_text(i, len + 1);
                    proof {
                        let t = old(self)@.controls[i as int].text;
                        assert(t.take(len as int) =~= t);
                        lemma_until_nul_push_nul(t);
                        assert(edit_text(old(self)@) == t);
                    }
                },
                None => {
                    let mut empty_buf: Vec<u16> = Vec::new();
                    empty_buf.push(0u16);
                    body_buf = empty_buf;
                    proof {
                        assert(body_buf@ =~= Seq::<u16>::empty().push(0u16));
                        lemma_until_nul_push_nul(Seq::<u16>::empty());
                    }
                },
            }
            let title_buf = to_wstring("Message");
            proof {
                lemma_msg_title();
            }
            self.show_message(&body_buf, &title_buf);
            proof {
                assert(self@ =~= step(old(self)@, (Event::Command { id: wparam })));
            }
        } else {
            proof {
                assert(self@ =~= step(old(self)@, (Event::Command { id: wparam })));
            }
        }
        1
    }

    /// The window callback's state machine, one event at a time: creation
    /// stashes the controller's address, destruction posts a quit event
    /// with exit code 0, a command is dispatched by its id, and everything
    /// else is left to default platform handling. Returns the callback's
    /// result word.
    pub fn windowproc(&mut self, msg: Event) -> (r: i32)
        requires
            wf_state(old(self)@),
        ensures
            final(self)@ == step(old(self)@, msg),
            wf_state(final(self)@),
    {
        match msg {
            Event::Create => {
                self.user_data_set = true;
                proof {
                    assert(self@ =~= step(old(self)@, msg));
                }
            },
            Event::Destroy => {
                self.quit_code = Some(0u32);
                proof {
                    assert(self@ =~= step(old(self)@, msg));
                }
            },
            Event::Command { id } => {
                self.procedures(id);
            },
            Event::Other => {
                proof {
                    assert(self@ =~= step(old(self)@, msg));
                }
            },
        }
        0
    }

    /// The blocking message loop over a queue of pending events: each
    /// iteration first checks for a posted quit — which ends the loop with
    /// the quit's exit code, before any later event is looked at — then
    /// dispatches the next event to the callback. The queue must carry the
    /// loop to a posted quit; the real loop would otherwise block for
    /// further input.
    pub fn win_loop(&mut self, events: &Vec<Event>) -> (exit: u32)
        requires
            wf_state(old(self)@),
            run(old(self)@, events@).quit_code is Some,
        ensures
            final(self)@ == run(old(self)@, events@),
            Some(exit) == run(old(self)@, events@).quit_code,
    {
        let n = events.len();
        let mut i: usize = 0;
        proof {
            assert(events@.skip(0) =~= events@);
        }
        loop
            invariant
                i <= n,
                n == events@.len(),
                wf_state(self@),
                run(old(self)@, events@) == run(self@, events@.skip(i as int)),
                run(self@, events@.skip(i as int)).quit_code is Some,
            decreases events@.len() - i,
        {
            match self.quit_code {
                Some(code) => {
                    proof {
                        assert(run(self@, events@.skip(i as int)) == self@);
                    }
                    return code;
                },
                None => {},
            }
            proof {
                if i == events@.len() {
                    assert(events@.skip(i as int) =~= Seq::<Event>::empty());
                    assert(run(self@, events@.skip(i as int)) == self@);
                    assert(false);
                }
                assert(events@.skip(i as int)[0] == events@[i as int]);
                assert(events@.skip(i as int).skip(1) =~= events@.skip(i as int + 1));
            }
            let e = events[i];
            self.windowproc(e);
            i = i + 1;
        }
    }
}

/// Builds the program's fixed user interface: a visible 600 by 500 window
/// titled "My_window", a "Click button" push button, and a text-entry
/// field starting with "What's wrong?", painted once.
pub fn main_window() -> (w: Win)
    ensures
        wf_state(w@),
        startup_ok(w@),
        w@.painted,
        w@.user_data_set,
        w@.quit_code is None,
        w@.dialogs == Seq::<DialogV>::empty(),
        edit_text(w@) == utf16("What's wrong?"@),
{
    proof {
        reveal_strlit("My_window");
        reveal_strlit("Click button");
        reveal_strlit("What's wrong?");
    }
    let mut window = Win::new("My_window", 600, 500);
    window.add_button("Click button", 5, 5, 80, 32, BTN);
    window.add_edit("What's wrong?", 5, 60, 160, 52, EDT);
    window.update();
    proof {
        lemma_find_control_at(window@.controls, 1, EDT);
    }
    window
}

/// Takes from a wide buffer what a reader of nul-terminated strings sees:
/// the units before the first nul.
fn take_until_nul(s: &Vec<u16>) -> (r: Vec<u16>)
    ensures
        r@ == until_nul(s@),
{
    let mut r: Vec<u16> = Vec::new();
    let mut i: usize = 0;
    proof {
        assert(s@.skip(0) =~= s@);
        assert(s@.take(0) + until_nul(s@) =~= until_nul(s@));
    }
    while i < s.len()
        invariant
            i <= s@.len(),
            r@ =~= s@.take(i as int),
            until_nul(s@) == s@.take(i as int) + until_nul(s@.skip(i as int)),
        decreases s@.len() - i,
    {
        let u = s[i];
        proof {
            assert(s@.skip(i as int)[0] == s@[i as int]);
        }
        if u == 0 {
            proof {
                assert(until_nul(s@.skip(i as int)) =~= Seq::<u16>::empty());
                assert(until_nul(s@) =~= r@);
            }
            return r;
        }
        r.push(u);
        proof {
            assert(s@.skip(i as int).skip(1) =~= s@.skip(i as int + 1));
            assert(s@.take(i as int).push(s@[i as int]) =~= s@.take(i as int + 1));
            assert(s@.take(i as int + 1) + until_nul(s@.skip(i as int + 1)) =~= s@.take(i as int)
                + until_nul(s@.skip(i as int)));
        }
        i = i + 1;
    }
    proof {
        assert(s@.skip(i as int) =~= Seq::<u16>::empty());
        assert(s@.take(i as int) =~= s@);
        assert(until_nul(s@) =~= r@);
    }
    r
}

} // verus!
