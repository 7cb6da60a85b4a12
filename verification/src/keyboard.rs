use crate::core_select::Views;
use vstd::prelude::*;

verus! {

/// Time, in milliseconds, that the host needs between two keyboard reports.
pub const KEY_REPORT_SPACING_MS: u64 = 30;

/// One step on the keyboard interface.
#[derive(Clone, Copy, Debug, PartialEq, Eq, Structural)]
pub enum KeyStep {
    /// Write the report that presses the keys.
    Press,
    /// Write the empty report, which releases every key.
    Release,
    /// Let the interface run its timers.
    Tick,
    /// Sleep for the given number of milliseconds.
    Sleep(u64),
}

/// The answer to a request to press keys, and what to do on the keyboard
/// interface.
#[derive(Debug, PartialEq, Eq)]
pub struct KeySend {
    /// 0 where the keys are sent, 1 where the keyboard is busy or not there.
    pub status: usize,
    /// The usage codes of the report that presses the keys.
    pub codes: Vec<u8>,
    /// The steps to run, in order; none where nothing is sent.
    pub steps: Vec<KeyStep>,
}

/// The steps of one stroke: the keys are pressed, and released again where
/// `key_up` asks for it. Every report is followed by a tick and by the time
/// the host needs before the next one.
pub open spec fn stroke_steps_spec(key_up: bool) -> Seq<KeyStep> {
    if key_up {
        seq![
            KeyStep::Press,
            KeyStep::Tick,
            KeyStep::Sleep(KEY_REPORT_SPACING_MS),
            KeyStep::Release,
            KeyStep::Tick,
            KeyStep::Sleep(KEY_REPORT_SPACING_MS),
        ]
    } else {
        seq![KeyStep::Press, KeyStep::Tick, KeyStep::Sleep(KEY_REPORT_SPACING_MS)]
    }
}

/// The usage code that a key argument stands for; zero stands for no key.
pub open spec fn pressed(code: usize) -> Seq<u8> {
    if code == 0 {
        Seq::<u8>::empty()
    } else {
        seq![(code % 256) as u8]
    }
}

/// The usage codes of up to three key arguments, in their order.
pub open spec fn key_codes(code0: usize, code1: usize, code2: usize) -> Seq<u8> {
    pressed(code0) + pressed(code1) + pressed(code2)
}

/// Whether the keyboard interface can take a report.
pub open spec fn keyboard_ready(view: Views, configured: bool) -> bool {
    view is FidoWithKbd && configured
}

/// The steps of one stroke, in the order to run them.
pub fn stroke_steps(key_up: bool) -> (r: Vec<KeyStep>)
    ensures
        r@ == stroke_steps_spec(key_up),
{
    let mut steps: Vec<KeyStep> = Vec::new();
    steps.push(KeyStep::Press);
    steps.push(KeyStep::Tick);
    steps.push(KeyStep::Sleep(KEY_REPORT_SPACING_MS));
    if key_up {
        steps.push(KeyStep::Release);
        steps.push(KeyStep::Tick);
        steps.push(KeyStep::Sleep(KEY_REPORT_SPACING_MS));
    }
    assert(steps@ =~= stroke_steps_spec(key_up));
    steps
}

fn push_pressed(codes: &mut Vec<u8>, code: usize)
    ensures
        final(codes)@ == old(codes)@ + pressed(code),
{
    if code != 0 {
        codes.push((code % 256) as u8);
        assert(final(codes)@ =~= old(codes)@ + pressed(code));
    } else {
        assert(codes@ =~= old(codes)@ + pressed(code));
    }
}

/// Decides a request to press up to three keys. The keys are sent only under
/// the view with a keyboard, and only while the host has the device
/// configured; otherwise the answer is busy and nothing is to be written.
pub fn send_key_code(
    view: Views,
    configured: bool,
    code0: usize,
    code1: usize,
    code2: usize,
    autoup: usize,
) -> (r: KeySend)
    ensures
        r.status == (if keyboard_ready(view, configured) { 0usize } else { 1usize }),
        keyboard_ready(view, configured) ==> r.codes@ == key_codes(code0, code1, code2)
            && r.steps@ == stroke_steps_spec(autoup == 1),
        !keyboard_ready(view, configured) ==> r.codes@.len() == 0 && r.steps@.len() == 0,
        view is FidoOnly ==> r.status == 1 && r.codes@.len() == 0 && r.steps@.len() == 0,
{
    let mut codes: Vec<u8> = Vec::new();
    match view {
        Views::FidoWithKbd => {
            if configured {
                push_pressed(&mut codes, code0);
                push_pressed(&mut codes, code1);
                push_pressed(&mut codes, code2);
                assert(codes@ =~= key_codes(code0, code1, code2));
                KeySend { status: 0, codes, steps: stroke_steps(autoup == 1) }
            } else {
                KeySend { status: 1, codes, steps: Vec::new() }
            }
        },
        Views::FidoOnly => KeySend { status: 1, codes, steps: Vec::new() },
    }
}

/// Decides a request to type a text: the characters to type, each by the
/// steps of one stroke with its release.
/// Under the view with a keyboard these are all of them, in order; under the
/// other view there are none. The length of the result is the count of
/// characters sent.
pub fn string_keystrokes(view: Views, chars: Vec<char>) -> (r: Vec<char>)
    ensures
        r@ == (if view is FidoWithKbd { chars@ } else { Seq::<char>::empty() }),
        view is FidoOnly ==> r@.len() == 0,
{
    match view {
        Views::FidoWithKbd => chars,
        Views::FidoOnly => Vec::new(),
    }
}

} // verus!
