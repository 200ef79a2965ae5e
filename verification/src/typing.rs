//! The typing-session state machine. A session holds an immutable target
//! text and a typed buffer edited only at its tail; every position of the
//! typed prefix is classified against the target character-wise, and the
//! error counter only ever grows.

use vstd::prelude::*;
use crate::text::{chars_of, string_from_chars};
use crate::clock::{now_millis, elapsed_millis, span_millis};

verus! {

/// Per-position classification of the target text against the typed buffer;
/// recomputed on demand, never stored.
#[derive(Debug, Clone, PartialEq, Eq, Structural)]
pub enum CharacterStatus {
    Correct,
    Incorrect,
    Current,
    Untyped,
}

/// The classification of position `i` of the target: typed positions are
/// Correct or Incorrect, the next position to type is Current, the rest are
/// Untyped.
pub open spec fn char_status_at(typed: Seq<char>, target: Seq<char>, i: int) -> CharacterStatus {
    if i < typed.len() {
        if typed[i] == target[i] {
            CharacterStatus::Correct
        } else {
            CharacterStatus::Incorrect
        }
    } else if i == typed.len() {
        CharacterStatus::Current
    } else {
        CharacterStatus::Untyped
    }
}

/// How many positions of the typed prefix match the target.
pub open spec fn correct_prefix(typed: Seq<char>, target: Seq<char>) -> nat
    decreases typed.len(),
{
    if typed.len() == 0 {
        0
    } else {
        correct_prefix(typed.drop_last(), target) + (if typed.len() <= target.len()
            && typed.last() == target[typed.len() - 1] {
            1nat
        } else {
            0nat
        })
    }
}

/// Accuracy over the typed prefix, in hundredths of a percent (10000 is
/// 100%), rounded down; an empty buffer is vacuously perfect.
pub open spec fn accuracy_permyriad(typed: Seq<char>, target: Seq<char>) -> int {
    if typed.len() == 0 {
        10000
    } else {
        10000int * (correct_prefix(typed, target) as int) / (typed.len() as int)
    }
}

/// Words per minute in hundredths (a word is five characters), over the
/// captured start and end instants; zero while either instant is missing or
/// no time has passed. Saturates at the counter's maximum.
pub open spec fn wpm_centi(chars: nat, start: Option<u64>, end: Option<u64>) -> int {
    if start is Some && end is Some && end.unwrap() > start.unwrap() {
        let ms = end.unwrap() - start.unwrap();
        let q = 1200000int * (chars as int) / (ms as int);
        if q > u64::MAX {
            u64::MAX as int
        } else {
            q
        }
    } else {
        0
    }
}

/// The mathematical state of a typing session.
pub struct TypingView {
    pub target: Seq<char>,
    pub typed: Seq<char>,
    pub start_ms: Option<u64>,
    pub end_ms: Option<u64>,
    pub errors: nat,
}

/// The session invariant: the typed buffer never outgrows the target.
pub open spec fn typing_inv(v: TypingView) -> bool {
    v.typed.len() <= v.target.len()
}

/// Snapshot returned once at completion; immutable after creation.
pub struct TypingResult {
    /// Words per minute in hundredths (a word is five characters).
    pub wpm_centi: u64,
    /// Accuracy in hundredths of a percent (10000 is 100%).
    pub accuracy_permyriad: u64,
    /// End instant minus start instant, in milliseconds; zero if either
    /// instant is missing.
    pub total_time_ms: u64,
    pub total_characters: usize,
    pub correct_characters: usize,
    pub errors: u32,
}

/// A typing session: the fixed target, the typed buffer, the two lazily
/// captured instants, and the monotonic error counter.
pub struct TypingGame {
    target_text: String,
    target: Vec<char>,
    typed: Vec<char>,
    start_ms: Option<u64>,
    end_ms: Option<u64>,
    errors: u32,
}

impl View for TypingGame {
    type V = TypingView;

    closed spec fn view(&self) -> TypingView {
        TypingView {
            target: self.target@,
            typed: self.typed@,
            start_ms: self.start_ms,
            end_ms: self.end_ms,
            errors: self.errors as nat,
        }
    }
}

impl TypingGame {
    /// The stored text and its decoded characters agree, and the invariant
    /// holds.
    pub closed spec fn wf(&self) -> bool {
        &&& typing_inv(self@)
        &&& self.target_text@ == self.target@
    }

    /// The session invariant follows from well-formedness.
    pub proof fn lemma_wf_inv(&self)
        requires
            self.wf(),
        ensures
            typing_inv(self@),
    {
    }

    /// A fresh, unstarted session over `target_text`. An empty target is a
    /// valid, degenerate input: the session is then finished immediately.
    pub fn new(target_text: String) -> (r: Self)
        ensures
            r.wf(),
            r@ == (TypingView {
                target: target_text@,
                typed: Seq::<char>::empty(),
                start_ms: None,
                end_ms: None,
                errors: 0,
            }),
    {
        let target = chars_of(target_text.as_str());
        let r = TypingGame {
            target_text,
            target,
            typed: Vec::new(),
            start_ms: None,
            end_ms: None,
            errors: 0,
        };
        proof {
            assert(r@.typed =~= Seq::<char>::empty());
        }
        r
    }

    /// Records the reference instant; also called automatically by the first
    /// accepted keystroke. Calling it again resets the reference.
    pub fn start(&mut self)
        requires
            old(self).wf(),
        ensures
            final(self).wf(),
            final(self)@.start_ms is Some,
            final(self)@.target == old(self)@.target,
            final(self)@.typed == old(self)@.typed,
            final(self)@.end_ms == old(self)@.end_ms,
            final(self)@.errors == old(self)@.errors,
    {
        self.start_ms = Some(now_millis());
    }

    /// Accepts one keystroke. On a finished session: a no-op returning false.
    /// Otherwise: appends the character, lazily starts the timer, counts an
    /// error if the character mismatches the target at the newly occupied
    /// position (never undone later), captures the end instant exactly once
    /// when the buffer first reaches the target length, and returns true.
    pub fn type_character(&mut self, ch: char) -> (r: bool)
        requires
            old(self).wf(),
        ensures
            final(self).wf(),
            final(self)@.target == old(self)@.target,
            old(self)@.typed.len() >= old(self)@.target.len()
                ==> !r && final(self)@ == old(self)@,
            old(self)@.typed.len() < old(self)@.target.len() ==> ({
                let pos = old(self)@.typed.len() as int;
                let hit = ch == old(self)@.target[pos];
                &&& r
                &&& final(self)@.typed == old(self)@.typed.push(ch)
                &&& final(self)@.start_ms is Some
                &&& (old(self)@.start_ms is Some
                    ==> final(self)@.start_ms == old(self)@.start_ms)
                &&& final(self)@.errors == (if hit {
                    old(self)@.errors as int
                } else if old(self)@.errors < u32::MAX {
                    old(self)@.errors as int + 1
                } else {
                    old(self)@.errors as int
                })
                &&& (final(self)@.typed.len() >= final(self)@.target.len()
                    ==> final(self)@.end_ms is Some)
                &&& (final(self)@.typed.len() < final(self)@.target.len() ==> final(self)@.end_ms
                    == old(self)@.end_ms)
                &&& (old(self)@.end_ms is Some ==> final(self)@.end_ms == old(self)@.end_ms)
            }),
    {
        if self.typed.len() >= self.target.len() {
            return false;
        }
        if self.start_ms.is_none() {
            self.start_ms = Some(now_millis());
        }
        self.typed.push(ch);
        let expected = self.target[self.typed.len() - 1];
        if expected != ch {
            if self.errors < u32::MAX {
                self.errors = self.errors + 1;
            }
        }
        if self.typed.len() >= self.target.len() {
            if self.end_ms.is_none() {
                self.end_ms = Some(now_millis());
            }
        }
        true
    }

    /// Removes the last typed character if there is one and reports whether a
    /// removal occurred. Never decreases the error counter and never clears a
    /// captured end instant.
    pub fn backspace(&mut self) -> (r: bool)
        requires
            old(self).wf(),
        ensures
            final(self).wf(),
            r == (old(self)@.typed.len() > 0),
            final(self)@.target == old(self)@.target,
            final(self)@.errors == old(self)@.errors,
            final(self)@.start_ms == old(self)@.start_ms,
            final(self)@.end_ms == old(self)@.end_ms,
            r ==> final(self)@.typed == old(self)@.typed.drop_last(),
            !r ==> final(self)@ == old(self)@,
    {
        if self.typed.len() > 0 {
            self.typed.pop();
            true
        } else {
            false
        }
    }

    /// The session is finished once the typed buffer has reached the target
    /// length.
    pub fn is_finished(&self) -> (r: bool)
        ensures
            r == (self@.typed.len() >= self@.target.len()),
    {
        self.typed.len() >= self.target.len()
    }

    /// The fixed target text.
    pub fn get_target_text(&self) -> (r: &str)
        requires
            self.wf(),
        ensures
            r@ == self@.target,
    {
        self.target_text.as_str()
    }

    /// The typed buffer, as a string.
    pub fn get_typed_text(&self) -> (r: String)
        ensures
            r@ == self@.typed,
    {
        string_from_chars(&self.typed)
    }

    /// The next position to be typed.
    pub fn get_current_position(&self) -> (r: usize)
        ensures
            r == self@.typed.len(),
    {
        self.typed.len()
    }

    /// Progress as the exact fraction `(typed length, target length)`, always
    /// in `[0, 1]`; an empty target reads as complete.
    pub fn get_progress(&self) -> (r: (usize, usize))
        requires
            self.wf(),
        ensures
            r.0 == self@.typed.len(),
            r.1 == self@.target.len(),
            r.0 <= r.1,
    {
        (self.typed.len(), self.target.len())
    }

    /// How many typed positions match the target.
    pub fn count_correct_characters(&self) -> (r: usize)
        requires
            self.wf(),
        ensures
            r == correct_prefix(self@.typed, self@.target),
            r <= self@.typed.len(),
    {
        let mut count: usize = 0;
        let mut i: usize = 0;
        while i < self.typed.len()
            invariant
                self.wf(),
                i <= self@.typed.len(),
                self@.typed.len() <= self@.target.len(),
                count == correct_prefix(self@.typed.subrange(0, i as int), self@.target),
                count <= i,
            decreases self@.typed.len() - i,
        {
            let ghost pre = self@.typed.subrange(0, i as int);
            let ghost post = self@.typed.subrange(0, i + 1);
            proof {
                assert(post.drop_last() =~= pre);
                assert(post.last() == self@.typed[i as int]);
            }
            if self.typed[i] == self.target[i] {
                count += 1;
            }
            i += 1;
        }
        proof {
            assert(self@.typed.subrange(0, self@.typed.len() as int) =~= self@.typed);
        }
        count
    }

    /// Accuracy over the typed prefix, in hundredths of a percent; 10000
    /// while the buffer is empty.
    pub fn calculate_accuracy(&self) -> (r: u64)
        requires
            self.wf(),
        ensures
            r == accuracy_permyriad(self@.typed, self@.target),
            r <= 10000,
    {
        let n = self.typed.len();
        if n == 0 {
            10000
        } else {
            let c = self.count_correct_characters();
            proof {
                lemma_correct_prefix_le(self@.typed, self@.target);
                assert(10000 * (c as int) / (n as int) <= 10000) by (nonlinear_arith)
                    requires
                        0 < n,
                        0 <= c <= n,
                ;
            }
            ((10000u128 * (c as u128)) / (n as u128)) as u64
        }
    }

    /// Words per minute in hundredths, from the captured instants.
    pub fn calculate_wpm(&self) -> (r: u64)
        ensures
            r == wpm_centi(self@.typed.len(), self@.start_ms, self@.end_ms),
    {
        match (self.start_ms, self.end_ms) {
            (Some(s), Some(e)) => {
                if e > s {
                    let ms = e - s;
                    let q: u128 = (1200000u128 * (self.typed.len() as u128)) / (ms as u128);
                    if q > u64::MAX as u128 {
                        u64::MAX
                    } else {
                        q as u64
                    }
                } else {
                    0
                }
            },
            _ => 0,
        }
    }

    /// The completion snapshot: none while unfinished, and once finished the
    /// exact metrics of the session.
    pub fn get_result(&self) -> (r: Option<TypingResult>)
        requires
            self.wf(),
        ensures
            r is Some <==> self@.typed.len() >= self@.target.len(),
            r is Some ==> ({
                let res = r.unwrap();
                &&& res.wpm_centi == wpm_centi(self@.typed.len(), self@.start_ms, self@.end_ms)
                &&& res.accuracy_permyriad == accuracy_permyriad(self@.typed, self@.target)
                &&& res.total_time_ms == (if self@.start_ms is Some && self@.end_ms is Some {
                    span_millis(self@.start_ms.unwrap(), self@.end_ms.unwrap())
                } else {
                    0int
                })
                &&& res.total_characters == self@.typed.len()
                &&& res.correct_characters == correct_prefix(self@.typed, self@.target)
                &&& res.errors == self@.errors
            }),
    {
        if self.typed.len() < self.target.len() {
            return None;
        }
        let total_time_ms = match (self.start_ms, self.end_ms) {
            (Some(s), Some(e)) => elapsed_millis(s, e),
            _ => 0,
        };
        Some(TypingResult {
            wpm_centi: self.calculate_wpm(),
            accuracy_permyriad: self.calculate_accuracy(),
            total_time_ms,
            total_characters: self.typed.len(),
            correct_characters: self.count_correct_characters(),
            errors: self.errors,
        })
    }

    /// The per-position classification of the whole target against the typed
    /// buffer.
    pub fn get_character_status(&self) -> (r: Vec<CharacterStatus>)
        requires
            self.wf(),
        ensures
            r@.len() == self@.target.len(),
            forall|i: int|
                0 <= i < r@.len() ==> r@[i] == char_status_at(self@.typed, self@.target, i),
    {
        let mut r: Vec<CharacterStatus> = Vec::new();
        let mut i: usize = 0;
        while i < self.target.len()
            invariant
                self.wf(),
                i <= self@.target.len(),
                r@.len() == i as int,
                forall|j: int|
                    0 <= j < i ==> r@[j] == char_status_at(self@.typed, self@.target, j),
            decreases self@.target.len() - i,
        {
            let status = if i < self.typed.len() {
                if self.typed[i] == self.target[i] {
                    CharacterStatus::Correct
                } else {
                    CharacterStatus::Incorrect
                }
            } else if i == self.typed.len() {
                CharacterStatus::Current
            } else {
                CharacterStatus::Untyped
            };
            r.push(status);
            i += 1;
        }
        r
    }
}

/// The count of matching positions never exceeds the typed length.
pub proof fn lemma_correct_prefix_le(typed: Seq<char>, target: Seq<char>)
    ensures
        correct_prefix(typed, target) <= typed.len(),
    decreases typed.len(),
{
    if typed.len() > 0 {
        lemma_correct_prefix_le(typed.drop_last(), target);
    }
}

/// Law: position classification marks exactly one position Current while the
/// buffer is shorter than the target, and none once the session is finished.
pub proof fn lemma_exactly_one_current(typed: Seq<char>, target: Seq<char>)
    requires
        typed.len() <= target.len(),
    ensures
        forall|i: int|
            0 <= i < target.len() ==> ((char_status_at(typed, target, i)
                == CharacterStatus::Current) <==> (i == typed.len()
                && typed.len() < target.len())),
{
}

/// If the typed buffer is a prefix of the target, every typed position
/// matches.
pub proof fn lemma_correct_prefix_full(typed: Seq<char>, target: Seq<char>)
    requires
        typed.len() <= target.len(),
        typed == target.take(typed.len() as int),
    ensures
        correct_prefix(typed, target) == typed.len(),
    decreases typed.len(),
{
    if typed.len() > 0 {
        assert(typed.drop_last() =~= target.take(typed.len() - 1));
        lemma_correct_prefix_full(typed.drop_last(), target);
        assert(typed.last() == target[typed.len() - 1]);
    }
}

/// One observable keystroke event that hits the target: on an unfinished
/// session the next target character itself is typed, over the same target,
/// and the error counter is untouched. `type_character` guarantees this
/// relation whenever it is handed the target character at the buffer's
/// position.
pub open spec fn correct_key_step(pre: TypingView, post: TypingView) -> bool {
    &&& pre.typed.len() < pre.target.len()
    &&& post.target == pre.target
    &&& post.typed == pre.typed.push(pre.target[pre.typed.len() as int])
    &&& post.errors == pre.errors
}

proof fn lemma_typing_trace_prefix(trace: Seq<TypingView>, k: int)
    requires
        0 <= k < trace.len(),
        trace[0].typed.len() == 0,
        forall|j: int| 0 <= j < trace.len() - 1 ==> #[trigger] correct_key_step(trace[j], trace[j + 1]),
    ensures
        trace[k].target == trace[0].target,
        trace[k].errors == trace[0].errors,
        trace[k].typed =~= trace[0].target.take(k),
        k <= trace[0].target.len(),
    decreases k,
{
    if k == 0 {
        assert(trace[0].typed =~= trace[0].target.take(0));
    } else {
        lemma_typing_trace_prefix(trace, k - 1);
        assert(correct_key_step(trace[k - 1], trace[k - 1 + 1]));
        assert(trace[k].typed =~= trace[0].target.take(k));
    }
}

/// Law: typing exactly the target, one correct character per event, finishes
/// the session with the buffer equal to the target, the error counter
/// unchanged, and perfect accuracy.
pub proof fn lemma_typing_all_correct(trace: Seq<TypingView>)
    requires
        trace.len() == trace[0].target.len() + 1,
        trace[0].typed.len() == 0,
        forall|j: int| 0 <= j < trace.len() - 1 ==> #[trigger] correct_key_step(trace[j], trace[j + 1]),
    ensures
        trace.last().typed == trace.last().target,
        trace.last().typed.len() >= trace.last().target.len(),
        trace.last().errors == trace[0].errors,
        accuracy_permyriad(trace.last().typed, trace.last().target) == 10000,
{
    let n = trace[0].target.len() as int;
    lemma_typing_trace_prefix(trace, n);
    assert(trace.last() == trace[n]);
    assert(trace.last().typed =~= trace.last().target);
    let last = trace.last();
    if last.typed.len() > 0 {
        assert(last.typed =~= last.target.take(last.typed.len() as int));
        lemma_correct_prefix_full(last.typed, last.target);
        let m = last.typed.len() as int;
        assert(10000 * m / m == 10000) by (nonlinear_arith)
            requires
                0 < m,
        ;
    }
}

} // verus!
