//! The kernel command line and the run modes it selects.

use vstd::prelude::*;
use crate::graphics::ui::list::str_from_utf8;

verus! {

/// Whether `needle` occurs in `hay` as a run of consecutive bytes.
pub open spec fn has_subslice(hay: Seq<u8>, needle: Seq<u8>) -> bool {
    exists|i: int| 0 <= i && i + needle.len() <= hay.len() && #[trigger] hay.subrange(i, i + needle.len()) == needle
}

/// Whether `needle` occurs in `hay` as a run of consecutive bytes.
pub fn contains_bytes(hay: &[u8], needle: &[u8]) -> (r: bool)
    ensures
        r == has_subslice(hay@, needle@),
{
    let n = needle.len();
    if n > hay.len() {
        return false;
    }
    let mut i: usize = 0;
    while i <= hay.len() - n
        invariant
            n == needle@.len(),
            n <= hay@.len(),
            hay@.len() <= usize::MAX,
            i <= hay@.len() - n + 1,
            forall|k: int| 0 <= k < i ==> #[trigger] hay@.subrange(k, k + n) != needle@,
        decreases hay@.len() - n + 1 - i,
    {
        let mut j: usize = 0;
        while j < n && hay[i + j] == needle[j]
            invariant
                n == needle@.len(),
                i + n <= hay@.len(),
                hay@.len() <= usize::MAX,
                j <= n,
                forall|t: int| 0 <= t < j ==> hay@[i + t] == needle@[t],
            decreases n - j,
        {
            j = j + 1;
        }
        if j == n {
            assert(hay@.subrange(i as int, i + n) =~= needle@);
            return true;
        }
        assert(hay@.subrange(i as int, i + n)[j as int] != needle@[j as int]);
        i = i + 1;
    }
    assert forall|k: int| 0 <= k && k + n <= hay@.len() implies #[trigger] hay@.subrange(k, k + n) != needle@ by {
        assert(k < i);
    }
    false
}

/// The ASCII bytes of `server`.
pub open spec fn server_word() -> Seq<u8> {
    seq![0x73u8, 0x65, 0x72, 0x76, 0x65, 0x72]
}

/// The ASCII bytes of `benchmark`.
pub open spec fn benchmark_word() -> Seq<u8> {
    seq![0x62u8, 0x65, 0x6E, 0x63, 0x68, 0x6D, 0x61, 0x72, 0x6B]
}

/// The ASCII bytes of `test`.
pub open spec fn test_word() -> Seq<u8> {
    seq![0x74u8, 0x65, 0x73, 0x74]
}

/// Run modes the command line selects.
#[derive(Debug, Clone, Copy, PartialEq, Eq, Structural)]
pub struct BootModes {
    /// Dedicated server: no rendering.
    pub server: bool,
    /// Performance testing.
    pub benchmark: bool,
    /// All items spawned.
    pub test: bool,
}

/// The run modes of a kernel command line: a command line that is valid
/// UTF-8 selects each mode whose name occurs in it anywhere; one that is not
/// selects none.
pub fn boot_modes(cmdline: &[u8]) -> (r: BootModes)
    ensures
        r.server == (vstd::utf8::valid_utf8(cmdline@) && has_subslice(cmdline@, server_word())),
        r.benchmark == (vstd::utf8::valid_utf8(cmdline@) && has_subslice(cmdline@, benchmark_word())),
        r.test == (vstd::utf8::valid_utf8(cmdline@) && has_subslice(cmdline@, test_word())),
{
    let none = BootModes { server: false, benchmark: false, test: false };
    if str_from_utf8(cmdline).is_none() {
        return none;
    }
    let server: [u8; 6] = [0x73, 0x65, 0x72, 0x76, 0x65, 0x72];
    let benchmark: [u8; 9] = [0x62, 0x65, 0x6E, 0x63, 0x68, 0x6D, 0x61, 0x72, 0x6B];
    let test: [u8; 4] = [0x74, 0x65, 0x73, 0x74];
    assert(server@ =~= server_word());
    assert(benchmark@ =~= benchmark_word());
    assert(test@ =~= test_word());
    BootModes {
        server: contains_bytes(cmdline, server.as_slice()),
        benchmark: contains_bytes(cmdline, benchmark.as_slice()),
        test: contains_bytes(cmdline, test.as_slice()),
    }
}

} // verus!
