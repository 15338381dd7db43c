//! AirPlay mirroring detector.
//!
//! The OS-level detection mechanism writes a small plain-text state file;
//! the I/O layer reads it and hands the outcome of that read to the
//! service as a [`FileProbe`]. Content that trims to `"true"` means
//! mirroring is active; any other content, or an absent file, means
//! inactive. A failed read is transient: the previous state is retained.

use vstd::prelude::*;

verus! {

/// Outcome of one attempt by the I/O layer to read the state file.
pub enum FileProbe {
    /// The file does not exist.
    Absent,
    /// The file exists but could not be read.
    Unreadable,
    /// The file's raw bytes.
    Contents(Vec<u8>),
}

/// A transient polling failure; the poller retains its previous state.
#[derive(Clone, Copy, PartialEq, Eq, Structural, Debug)]
pub enum PollError {
    /// The state file existed but reading it failed.
    Unreadable,
}

/// ASCII whitespace, the characters trimmed from the state file content.
pub open spec fn is_space(b: u8) -> bool {
    b == 0x20 || b == 0x09 || b == 0x0a || b == 0x0d || b == 0x0b || b == 0x0c
}

/// `s` with its leading whitespace removed.
pub open spec fn spec_trim_front(s: Seq<u8>) -> Seq<u8>
    decreases s.len(),
{
    if s.len() > 0 && is_space(s[0]) {
        spec_trim_front(s.drop_first())
    } else {
        s
    }
}

/// `s` with its trailing whitespace removed.
pub open spec fn spec_trim_back(s: Seq<u8>) -> Seq<u8>
    decreases s.len(),
{
    if s.len() > 0 && is_space(s[s.len() - 1]) {
        spec_trim_back(s.drop_last())
    } else {
        s
    }
}

/// `s` with leading and trailing whitespace removed.
pub open spec fn spec_trim(s: Seq<u8>) -> Seq<u8> {
    spec_trim_back(spec_trim_front(s))
}

/// The bytes of `"true"`.
pub open spec fn spec_true_bytes() -> Seq<u8> {
    seq![0x74u8, 0x72u8, 0x75u8, 0x65u8]
}

/// Whether file content means "mirroring active": it trims to `"true"`.
pub open spec fn spec_is_true(s: Seq<u8>) -> bool {
    spec_trim(s) == spec_true_bytes()
}

proof fn lemma_trim_front_is_skip(s: Seq<u8>, lo: int)
    requires
        0 <= lo <= s.len(),
        forall|j: int| 0 <= j < lo ==> is_space(s[j]),
        lo == s.len() || !is_space(s[lo]),
    ensures
        spec_trim_front(s) == s.skip(lo),
    decreases lo,
{
    if lo == 0 {
        assert(s.skip(0) =~= s);
    } else {
        let t = s.drop_first();
        assert(forall|j: int| 0 <= j < lo - 1 ==> is_space(t[j]));
        lemma_trim_front_is_skip(t, lo - 1);
        assert(t.skip(lo - 1) =~= s.skip(lo));
    }
}

proof fn lemma_trim_back_is_take(s: Seq<u8>, hi: int)
    requires
        0 <= hi <= s.len(),
        forall|j: int| hi <= j < s.len() ==> is_space(s[j]),
        hi == 0 || !is_space(s[hi - 1]),
    ensures
        spec_trim_back(s) == s.take(hi),
    decreases s.len() - hi,
{
    if hi == s.len() {
        assert(s.take(hi) =~= s);
        if s.len() > 0 {
            assert(!is_space(s[s.len() - 1]));
        }
    } else {
        let t = s.drop_last();
        assert(is_space(s[s.len() - 1]));
        assert(forall|j: int| hi <= j < t.len() ==> is_space(t[j]));
        lemma_trim_back_is_take(t, hi);
        assert(t.take(hi) =~= s.take(hi));
    }
}

fn is_space_byte(b: u8) -> (r: bool)
    ensures
        r == is_space(b),
{
    b == 0x20 || b == 0x09 || b == 0x0a || b == 0x0d || b == 0x0b || b == 0x0c
}

/// Whether `contents`, trimmed of surrounding whitespace, reads `"true"`.
pub fn trimmed_is_true(contents: &Vec<u8>) -> (r: bool)
    ensures
        r == spec_is_true(contents@),
{
    let s = contents;
    let len = s.len();
    let mut lo: usize = 0;
    while lo < len && is_space_byte(s[lo])
        invariant
            len == s@.len(),
            lo <= len,
            forall|j: int| 0 <= j < lo ==> is_space(s@[j]),
        decreases len - lo,
    {
        lo = lo + 1;
    }
    let mut hi: usize = len;
    while hi > lo && is_space_byte(s[hi - 1])
        invariant
            len == s@.len(),
            lo <= hi <= len,
            forall|j: int| hi <= j < len ==> is_space(s@[j]),
        decreases hi,
    {
        hi = hi - 1;
    }
    proof {
        lemma_trim_front_is_skip(s@, lo as int);
        let front = s@.skip(lo as int);
        assert(forall|j: int| hi - lo <= j < front.len() ==> is_space(front[j]));
        if hi > lo {
            assert(front[hi - lo - 1] == s@[hi - 1]);
        }
        lemma_trim_back_is_take(front, hi - lo);
        assert(spec_trim(s@) =~= s@.subrange(lo as int, hi as int));
    }
    if hi - lo != 4 {
        proof {
            assert(spec_trim(s@).len() != 4);
        }
        return false;
    }
    let r = s[lo] == 0x74 && s[lo + 1] == 0x72 && s[lo + 2] == 0x75 && s[lo + 3] == 0x65;
    proof {
        let t = spec_trim(s@);
        assert(t[0] == s@[lo as int]);
        assert(t[1] == s@[lo as int + 1]);
        assert(t[2] == s@[lo as int + 2]);
        assert(t[3] == s@[lo as int + 3]);
        if r {
            assert(t =~= spec_true_bytes());
        }
    }
    r
}

/// The cached activity state after one probe is applied: fresh content is
/// interpreted, an absent file means inactive, and a failed read retains
/// the previous state.
pub open spec fn spec_state_after(prev: bool, probe: &FileProbe) -> bool {
    match probe {
        FileProbe::Absent => false,
        FileProbe::Unreadable => prev,
        FileProbe::Contents(b) => spec_is_true(b@),
    }
}

/// AirPlay service: caches the activity flag between polls.
pub struct AirPlayService {
    state_file: String,
    cached_state: bool,
}

impl AirPlayService {
    /// Path of the state file this service watches.
    pub closed spec fn spec_state_file(&self) -> Seq<char> {
        self.state_file@
    }

    /// The cached activity flag.
    pub closed spec fn spec_is_active(&self) -> bool {
        self.cached_state
    }

    /// A fresh service watching `state_file`; inactive until the first poll.
    pub fn new(state_file: String) -> (s: AirPlayService)
        ensures
            s.spec_state_file() == state_file@,
            !s.spec_is_active(),
    {
        AirPlayService { state_file, cached_state: false }
    }

    /// Path of the state file, for the I/O layer to read.
    pub fn state_file(&self) -> (r: &String)
        ensures
            r@ == self.spec_state_file(),
    {
        &self.state_file
    }

    /// Whether AirPlay mirroring is currently active (as of the last poll).
    pub fn is_active(&self) -> (r: bool)
        ensures
            r == self.spec_is_active(),
    {
        self.cached_state
    }

    /// Applies one probe of the state file: content trimming to `"true"`
    /// makes the service active, any other content or an absent file makes
    /// it inactive, and a failed read is reported and leaves the state
    /// unchanged.
    pub fn update_state(&mut self, probe: &FileProbe) -> (r: Result<(), PollError>)
        ensures
            final(self).spec_state_file() == old(self).spec_state_file(),
            final(self).spec_is_active() == spec_state_after(old(self).spec_is_active(), probe),
            r is Ok <==> !(probe is Unreadable),
    {
        match probe {
            FileProbe::Absent => {
                self.cached_state = false;
                Ok(())
            },
            FileProbe::Unreadable => Err(PollError::Unreadable),
            FileProbe::Contents(bytes) => {
                self.cached_state = trimmed_is_true(bytes);
                Ok(())
            },
        }
    }

    /// One poll of the state file. A read failure is transient and never
    /// fatal: the previous state is retained and the next due tick retries.
    ///
    /// After the poll the service is active exactly when the probe carried
    /// content that trims to `"true"`; an absent file reads inactive.
    pub fn poll(&mut self, probe: &FileProbe)
        ensures
            final(self).spec_state_file() == old(self).spec_state_file(),
            final(self).spec_is_active() == spec_state_after(old(self).spec_is_active(), probe),
    {
        match self.update_state(probe) {
            Ok(()) => (),
            Err(_) => (),
        }
    }
}

} // verus!
