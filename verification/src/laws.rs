//! Laws of the dispatch state machine: what holds of every edit text,
//! every unrecognized command, every event queue, and every text read.

use vstd::prelude::*;
use crate::win::{
    step, run, text_read, until_nul, edit_text, msg_title, wf_state, Event, DialogV, WinV, BTN,
};
use crate::win::{lemma_until_nul_no_nul, lemma_until_nul_push_nul};

verus! {

/// Echo law: in any state whose edit text is a nul-free string, the
/// button-press command displays one more dialog, titled "Message", whose
/// body is exactly that string — no trimming, no transformation — and
/// changes nothing else.
pub proof fn lemma_echo(w: WinV, s: Seq<u16>)
    requires
        edit_text(w) == s,
        forall|i: int| 0 <= i < s.len() ==> s[i] != 0u16,
    ensures
        step(w, (Event::Command { id: BTN })) == (WinV {
            dialogs: w.dialogs.push(DialogV { title: msg_title(), body: s }),
            ..w
        }),
{
    lemma_until_nul_no_nul(s);
    assert(step(w, (Event::Command { id: BTN })) =~= (WinV {
        dialogs: w.dialogs.push(DialogV { title: msg_title(), body: s }),
        ..w
    }));
}

/// Echo law for typed strings: when the edit text is the encoding of any
/// string without the nul character — the empty string and strings with
/// embedded whitespace included — the button press shows exactly that
/// string's units.
pub proof fn lemma_echo_typed(w: WinV, s: Seq<char>)
    requires
        edit_text(w) == crate::text::utf16(s),
        forall|i: int| 0 <= i < s.len() ==> s[i] != '\0',
    ensures
        step(w, (Event::Command { id: BTN })) == (WinV {
            dialogs: w.dialogs.push(DialogV { title: msg_title(), body: crate::text::utf16(s) }),
            ..w
        }),
{
    crate::text::lemma_utf16_no_nul(s);
    lemma_echo(w, crate::text::utf16(s));
}

/// No-op law: a command event carrying any id other than the button's
/// changes nothing — no dialog, no state change.
pub proof fn lemma_unrecognized_command(w: WinV, id: u32)
    requires
        id != BTN,
    ensures
        step(w, (Event::Command { id })) == w,
{
}

/// Termination law: once a destroy event is dispatched, the next loop
/// iteration returns with exit code 0, and no later event — whatever the
/// rest of the queue holds — is processed.
pub proof fn lemma_destroy_terminates(w: WinV, rest: Seq<Event>)
    ensures
        run(w, seq![Event::Destroy] + rest) == run(w, seq![Event::Destroy]),
        w.quit_code is None ==> run(w, seq![Event::Destroy] + rest) == step(w, Event::Destroy),
        run(w, seq![Event::Destroy] + rest).quit_code is Some,
        w.quit_code is None ==> run(w, seq![Event::Destroy] + rest).quit_code == Some(0u32),
{
    let q = seq![Event::Destroy] + rest;
    if w.quit_code is Some {
        assert(run(w, q) == w);
        assert(run(w, seq![Event::Destroy]) == w);
    } else {
        let w1 = step(w, Event::Destroy);
        assert(q[0] == Event::Destroy);
        assert(w1.quit_code == Some(0u32));
        assert(run(w, q) == run(w1, q.skip(1)));
        assert(run(w1, q.skip(1)) == w1);
        assert(seq![Event::Destroy].len() == 1);
        assert(seq![Event::Destroy][0] == Event::Destroy);
        assert(run(w, seq![Event::Destroy]) == run(w1, seq![Event::Destroy].skip(1)));
        assert(run(w1, seq![Event::Destroy].skip(1)) == w1);
    }
}

/// Every exit is clean: whatever quit code the loop ends with was either
/// posted before it started or is the 0 that a destroy event posts.
pub proof fn lemma_run_exit_code(w: WinV, events: Seq<Event>)
    requires
        run(w, events).quit_code is Some,
        w.quit_code is None,
    ensures
        run(w, events).quit_code == Some(0u32),
    decreases events.len(),
{
    if events.len() > 0 {
        let w1 = step(w, events[0]);
        if w1.quit_code is Some {
            assert(run(w1, events.skip(1)) == w1);
        } else {
            lemma_run_exit_code(w1, events.skip(1));
        }
    }
}

/// Idempotent re-read: two reads of the same control's text into buffers
/// of one length, with no intervening edit, fill the buffers alike.
pub proof fn lemma_reread_idempotent(w: WinV, r1: Seq<u16>, r2: Seq<u16>, buf_len: int)
    requires
        r1 == text_read(edit_text(w), buf_len),
        r2 == text_read(edit_text(w), buf_len),
    ensures
        r1 == r2,
{
}

/// Length-prefetch correctness: a buffer sized to the reported text length
/// plus one for the terminator receives the whole text and the nul —
/// no truncation, and nothing beyond the text is read.
pub proof fn lemma_length_prefetch(t: Seq<u16>)
    ensures
        text_read(t, t.len() as int + 1) == t.push(0u16),
        until_nul(text_read(t, t.len() as int + 1)) == until_nul(t),
{
    lemma_until_nul_push_nul(t);
}

/// The state a dispatched event leaves behind is well formed whenever the
/// state before it was: dispatch never disturbs the controls.
pub proof fn lemma_step_preserves_wf(w: WinV, e: Event)
    requires
        wf_state(w),
    ensures
        wf_state(step(w, e)),
        step(w, e).controls == w.controls,
{
}

} // verus!
