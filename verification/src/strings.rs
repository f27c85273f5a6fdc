//! Scanner for maximal runs of printable ASCII in a byte buffer.
//!
//! [`strings`] walks a buffer and collects every run of printable bytes of
//! at least a requested length, each run taken up to its terminator (a NUL
//! terminator is kept, any other terminator is dropped); a run that reaches
//! the end of the buffer unterminated ends the scan without being emitted.
//! The function is proved to return exactly [`spec_strings`] of the buffer.

use vstd::prelude::*;

verus! {

/// Outcome of probing one start position for a printable string.
#[derive(Copy, Clone, Debug, PartialEq, Eq, Structural)]
pub enum StringAddr {
    /// A run of at least the requested length starts at this address.
    Addr(usize),
    /// The buffer ends before the probe could fail or succeed.
    EOF,
    /// A non-printable byte cuts the run short of the requested length.
    NoString,
}

/// Whether a byte is printable ASCII (space through tilde).
pub open spec fn printable(c: u8) -> bool {
    32 <= c && c <= 126
}

/// The length of the maximal run of printable bytes starting at `i`.
pub open spec fn run_len(data: Seq<u8>, i: int) -> int
    decreases data.len() - i
        when 0 <= i <= data.len()
{
    if i < 0 || i >= data.len() || !printable(data[i]) {
        0
    } else {
        1 + run_len(data, i + 1)
    }
}

/// The printable run starting at `i` ends exactly where `run_len` says:
/// everything before that point is printable, and the run stops at the
/// buffer end or at a non-printable byte.
pub proof fn lemma_run_len_bounds(data: Seq<u8>, i: int)
    requires
        0 <= i <= data.len(),
    ensures
        0 <= run_len(data, i),
        i + run_len(data, i) <= data.len(),
        forall|k: int| i <= k < i + run_len(data, i) ==> printable(data[k]),
        i + run_len(data, i) == data.len() || !printable(data[i + run_len(data, i)]),
    decreases data.len() - i,
{
    if i < data.len() && printable(data[i]) {
        lemma_run_len_bounds(data, i + 1);
    }
}

/// A stretch of `j` printable bytes at `i`, followed by the buffer end or a
/// non-printable byte, is exactly the maximal run at `i`.
pub proof fn lemma_run_len_exact(data: Seq<u8>, i: int, j: int)
    requires
        0 <= i,
        0 <= j,
        i + j <= data.len(),
        forall|k: int| i <= k < i + j ==> printable(data[k]),
        i + j == data.len() || !printable(data[i + j]),
    ensures
        run_len(data, i) == j,
    decreases j,
{
    if j > 0 {
        assert(printable(data[i]));
        lemma_run_len_exact(data, i + 1, j - 1);
    }
}

/// The strings the scan emits from position `i` on: skip positions whose
/// run is shorter than `min_len` (stopping if the buffer ends during the
/// probe), and at each long-enough run emit its bytes — with the NUL kept
/// when the terminator is NUL — unless the run reaches the buffer end, which
/// ends the scan without emitting.
pub open spec fn spec_strings_from(data: Seq<u8>, min_len: nat, i: int) -> Seq<Seq<u8>>
    decreases data.len() - i
        when 0 <= i <= data.len()
        via spec_strings_from_decreases
{
    let l = run_len(data, i);
    if i >= data.len() {
        Seq::empty()
    } else if l >= min_len {
        if i + l == data.len() {
            Seq::empty()
        } else if data[i + l] == 0 {
            seq![data.subrange(i, i + l + 1)] + spec_strings_from(data, min_len, i + l + 1)
        } else {
            seq![data.subrange(i, i + l)] + spec_strings_from(data, min_len, i + l + 1)
        }
    } else if i + l == data.len() {
        Seq::empty()
    } else {
        spec_strings_from(data, min_len, i + 1)
    }
}

#[via_fn]
proof fn spec_strings_from_decreases(data: Seq<u8>, min_len: nat, i: int) {
    lemma_run_len_bounds(data, i);
}

/// All strings the scan emits from the start of the buffer.
pub open spec fn spec_strings(data: Seq<u8>, min_len: nat) -> Seq<Seq<u8>> {
    spec_strings_from(data, min_len, 0)
}

/// Measures the printable run starting at `start`.
fn run_length(start: usize, data: &[u8]) -> (r: usize)
    requires
        start <= data@.len(),
    ensures
        r == run_len(data@, start as int),
{
    let n: usize = data.len();
    let mut off: usize = 0;
    while start + off < n && data[start + off] >= 32 && data[start + off] <= 126
        invariant
            n == data@.len(),
            start + off <= n,
            forall|k: int| start <= k < start + off ==> printable(data@[k]),
        decreases data@.len() - start - off,
    {
        off = off + 1;
    }
    proof {
        lemma_run_len_exact(data@, start as int, off as int);
    }
    off
}

/// Probes `start_addr` for a printable run of at least `min_len` bytes, as
/// one step of the scan: `Addr` when the run is long enough, `EOF` when the
/// buffer ends first, `NoString` when a non-printable byte ends it first.
pub fn find_string(start_addr: usize, min_len: u32, data: &[u8]) -> (r: StringAddr)
    requires
        start_addr <= data@.len(),
    ensures
        r is Addr <==> run_len(data@, start_addr as int) >= min_len,
        r is Addr ==> r->0 == start_addr,
        r is EOF <==> run_len(data@, start_addr as int) < min_len && start_addr + run_len(
            data@,
            start_addr as int,
        ) == data@.len(),
        r is NoString <==> run_len(data@, start_addr as int) < min_len && start_addr + run_len(
            data@,
            start_addr as int,
        ) < data@.len(),
{
    proof {
        lemma_run_len_bounds(data@, start_addr as int);
    }
    let n: usize = data.len();
    let l: usize = run_length(start_addr, data);
    if l >= min_len as usize {
        StringAddr::Addr(start_addr)
    } else if start_addr + l == n {
        StringAddr::EOF
    } else {
        StringAddr::NoString
    }
}

/// Collects every printable string of at least `min_len` bytes, in order of
/// appearance, exactly as [`spec_strings`] describes.
pub fn strings(min_len: u32, data: &[u8]) -> (r: Vec<Vec<u8>>)
    ensures
        r.deep_view() == spec_strings(data@, min_len as nat),
{
    let n: usize = data.len();
    let mut out: Vec<Vec<u8>> = Vec::new();
    let mut curr: usize = 0;
    loop
        invariant
            n == data@.len(),
            curr <= data@.len(),
            out.deep_view() + spec_strings_from(data@, min_len as nat, curr as int)
                == spec_strings(data@, min_len as nat),
        decreases data@.len() - curr,
    {
        proof {
            lemma_run_len_bounds(data@, curr as int);
        }
        match find_string(curr, min_len, data) {
            StringAddr::EOF => {
                return out;
            },
            StringAddr::NoString => {
                curr = curr + 1;
            },
            StringAddr::Addr(addr) => {
                let l: usize = run_length(addr, data);
                if addr + l == n {
                    // the run reaches the buffer end unterminated: the scan
                    // stops without emitting it
                    return out;
                }
                let mut buf: Vec<u8> = Vec::new();
                let mut k: usize = 0;
                while k < l
                    invariant
                        n == data@.len(),
                        k <= l,
                        addr == curr,
                        l == run_len(data@, curr as int),
                        curr + l < data@.len(),
                        buf@ == data@.subrange(curr as int, curr + k),
                    decreases l - k,
                {
                    buf.push(data[curr + k]);
                    k = k + 1;
                    proof {
                        assert(buf@ =~= data@.subrange(curr as int, curr + k));
                    }
                }
                let t: u8 = data[curr + l];
                if t == 0 {
                    buf.push(0);
                    proof {
                        assert(buf@ =~= data@.subrange(curr as int, curr + l + 1));
                    }
                }
                let ghost pre_out = out.deep_view();
                let ghost bufv = buf@;
                proof {
                    assert(buf.deep_view() =~= bufv);
                }
                out.push(buf);
                curr = curr + l + 1;
                proof {
                    let ghost emitted = spec_strings_from(data@, min_len as nat, addr as int);
                    let ghost rest = spec_strings_from(data@, min_len as nat, curr as int);
                    assert(emitted == seq![bufv] + rest);
                    assert(out.deep_view() =~= pre_out + seq![bufv]);
                    assert((pre_out + seq![bufv]) + rest =~= pre_out + (seq![bufv] + rest));
                }
            },
        }
    }
}

} // verus!
