//! Build-time code generation support: the text of the generated
//! configuration source, and the check that the frontend directory holds an
//! index file. Walking the directory and writing the file are the build
//! script's work; the text itself is fixed here.

use vstd::prelude::*;

use crate::util::{bytes_eq, push_all, to_vec};

verus! {

/// The generated text up to the serve directory.
pub open spec fn spec_config_head() -> Seq<u8> {
    seq![0x75u8, 0x73u8, 0x65u8, 0x20u8, 0x62u8, 0x75u8, 0x69u8, 0x5fu8, 0x62u8, 0x61u8, 0x63u8, 0x6bu8, 0x65u8, 0x6eu8, 0x64u8, 0x3au8, 0x3au8, 0x6cu8, 0x6fu8, 0x77u8, 0x6cu8, 0x65u8, 0x76u8, 0x65u8, 0x6cu8, 0x3au8, 0x3au8, 0x43u8, 0x6fu8, 0x6eu8, 0x66u8, 0x69u8, 0x67u8, 0x3bu8, 0x0au8, 0x0au8, 0x66u8, 0x6eu8, 0x20u8, 0x67u8, 0x65u8, 0x74u8, 0x5fu8, 0x64u8, 0x65u8, 0x66u8, 0x61u8, 0x75u8, 0x6cu8, 0x74u8, 0x5fu8, 0x63u8, 0x6fu8, 0x6eu8, 0x66u8, 0x69u8, 0x67u8, 0x28u8, 0x29u8, 0x20u8, 0x2du8, 0x3eu8, 0x20u8, 0x43u8, 0x6fu8, 0x6eu8, 0x66u8, 0x69u8, 0x67u8, 0x20u8, 0x7bu8, 0x0au8, 0x20u8, 0x20u8, 0x20u8, 0x20u8, 0x43u8, 0x6fu8, 0x6eu8, 0x66u8, 0x69u8, 0x67u8, 0x20u8, 0x7bu8, 0x0au8, 0x20u8, 0x20u8, 0x20u8, 0x20u8, 0x20u8, 0x20u8, 0x20u8, 0x20u8, 0x73u8, 0x65u8, 0x72u8, 0x76u8, 0x65u8, 0x5fu8, 0x66u8, 0x69u8, 0x6cu8, 0x65u8, 0x70u8, 0x61u8, 0x74u8, 0x68u8, 0x3au8, 0x20u8, 0x62u8, 0x22u8]
}

/// The generated text after the serve directory.
pub open spec fn spec_config_tail() -> Seq<u8> {
    seq![0x22u8, 0x2eu8, 0x74u8, 0x6fu8, 0x5fu8, 0x76u8, 0x65u8, 0x63u8, 0x28u8, 0x29u8, 0x2cu8, 0x0au8, 0x20u8, 0x20u8, 0x20u8, 0x20u8, 0x20u8, 0x20u8, 0x20u8, 0x20u8, 0x62u8, 0x75u8, 0x6eu8, 0x64u8, 0x6cu8, 0x65u8, 0x64u8, 0x5fu8, 0x66u8, 0x69u8, 0x6cu8, 0x65u8, 0x73u8, 0x3au8, 0x20u8, 0x62u8, 0x75u8, 0x6eu8, 0x64u8, 0x6cu8, 0x65u8, 0x64u8, 0x5fu8, 0x61u8, 0x73u8, 0x73u8, 0x65u8, 0x74u8, 0x73u8, 0x28u8, 0x29u8, 0x2cu8, 0x0au8, 0x20u8, 0x20u8, 0x20u8, 0x20u8, 0x20u8, 0x20u8, 0x20u8, 0x20u8, 0x63u8, 0x68u8, 0x61u8, 0x6eu8, 0x6eu8, 0x65u8, 0x6cu8, 0x5fu8, 0x73u8, 0x69u8, 0x7au8, 0x65u8, 0x3au8, 0x20u8, 0x31u8, 0x30u8, 0x2cu8, 0x0au8, 0x20u8, 0x20u8, 0x20u8, 0x20u8, 0x20u8, 0x20u8, 0x20u8, 0x20u8, 0x63u8, 0x6fu8, 0x6fu8, 0x6bu8, 0x69u8, 0x65u8, 0x5fu8, 0x6eu8, 0x61u8, 0x6du8, 0x65u8, 0x3au8, 0x20u8, 0x62u8, 0x22u8, 0x63u8, 0x6cu8, 0x69u8, 0x65u8, 0x6eu8, 0x74u8, 0x22u8, 0x2eu8, 0x74u8, 0x6fu8, 0x5fu8, 0x76u8, 0x65u8, 0x63u8, 0x28u8, 0x29u8, 0x2cu8, 0x0au8, 0x20u8, 0x20u8, 0x20u8, 0x20u8, 0x7du8, 0x0au8, 0x7du8, 0x0au8]
}

/// The whole generated configuration source for a frontend directory: a
/// `get_default_config` with that directory, the bundled assets, the default
/// channel size of 10 and the default cookie name `client`.
pub open spec fn spec_config_source(files_dir: Seq<u8>) -> Seq<u8> {
    spec_config_head() + files_dir + spec_config_tail()
}

/// A directory name that can stand inside the generated byte-string
/// literal: printable ASCII without quote or backslash.
pub open spec fn spec_literal_safe(s: Seq<u8>) -> bool {
    forall|i: int|
        0 <= i < s.len() ==> 0x20 <= #[trigger] s[i] < 0x7f && s[i] != 0x22u8 && s[i] != 0x5cu8
}

/// Generate the configuration source text for a frontend directory.
pub fn config_file_contents(files_dir: &[u8]) -> (r: Vec<u8>)
    requires
        spec_literal_safe(files_dir@),
    ensures
        r@ == spec_config_source(files_dir@),
{
    let mut out = to_vec(&[0x75, 0x73, 0x65, 0x20, 0x62, 0x75, 0x69, 0x5f, 0x62, 0x61, 0x63, 0x6b, 0x65, 0x6e, 0x64, 0x3a, 0x3a, 0x6c, 0x6f, 0x77, 0x6c, 0x65, 0x76, 0x65, 0x6c, 0x3a, 0x3a, 0x43, 0x6f, 0x6e, 0x66, 0x69, 0x67, 0x3b, 0x0a, 0x0a, 0x66, 0x6e, 0x20, 0x67, 0x65, 0x74, 0x5f, 0x64, 0x65, 0x66, 0x61, 0x75, 0x6c, 0x74, 0x5f, 0x63, 0x6f, 0x6e, 0x66, 0x69, 0x67, 0x28, 0x29, 0x20, 0x2d, 0x3e, 0x20, 0x43, 0x6f, 0x6e, 0x66, 0x69, 0x67, 0x20, 0x7b, 0x0a, 0x20, 0x20, 0x20, 0x20, 0x43, 0x6f, 0x6e, 0x66, 0x69, 0x67, 0x20, 0x7b, 0x0a, 0x20, 0x20, 0x20, 0x20, 0x20, 0x20, 0x20, 0x20, 0x73, 0x65, 0x72, 0x76, 0x65, 0x5f, 0x66, 0x69, 0x6c, 0x65, 0x70, 0x61, 0x74, 0x68, 0x3a, 0x20, 0x62, 0x22]);
    proof {
        assert(out@ =~= spec_config_head());
    }
    push_all(&mut out, files_dir);
    push_all(&mut out, &[0x22, 0x2e, 0x74, 0x6f, 0x5f, 0x76, 0x65, 0x63, 0x28, 0x29, 0x2c, 0x0a, 0x20, 0x20, 0x20, 0x20, 0x20, 0x20, 0x20, 0x20, 0x62, 0x75, 0x6e, 0x64, 0x6c, 0x65, 0x64, 0x5f, 0x66, 0x69, 0x6c, 0x65, 0x73, 0x3a, 0x20, 0x62, 0x75, 0x6e, 0x64, 0x6c, 0x65, 0x64, 0x5f, 0x61, 0x73, 0x73, 0x65, 0x74, 0x73, 0x28, 0x29, 0x2c, 0x0a, 0x20, 0x20, 0x20, 0x20, 0x20, 0x20, 0x20, 0x20, 0x63, 0x68, 0x61, 0x6e, 0x6e, 0x65, 0x6c, 0x5f, 0x73, 0x69, 0x7a, 0x65, 0x3a, 0x20, 0x31, 0x30, 0x2c, 0x0a, 0x20, 0x20, 0x20, 0x20, 0x20, 0x20, 0x20, 0x20, 0x63, 0x6f, 0x6f, 0x6b, 0x69, 0x65, 0x5f, 0x6e, 0x61, 0x6d, 0x65, 0x3a, 0x20, 0x62, 0x22, 0x63, 0x6c, 0x69, 0x65, 0x6e, 0x74, 0x22, 0x2e, 0x74, 0x6f, 0x5f, 0x76, 0x65, 0x63, 0x28, 0x29, 0x2c, 0x0a, 0x20, 0x20, 0x20, 0x20, 0x7d, 0x0a, 0x7d, 0x0a]);
    proof {
        assert(out@ =~= spec_config_source(files_dir@));
    }
    out
}

/// `/index.html` appended to a directory.
pub open spec fn spec_index_path(files_dir: Seq<u8>) -> Seq<u8> {
    files_dir + seq![0x2fu8, 0x69u8, 0x6eu8, 0x64u8, 0x65u8, 0x78u8, 0x2eu8, 0x68u8, 0x74u8, 0x6du8, 0x6cu8]
}

/// Does the list of walked paths contain the index file of the directory?
pub fn has_index_file(entries: &Vec<Vec<u8>>, files_dir: &[u8]) -> (r: bool)
    ensures
        r == entries@.map_values(|e: Vec<u8>| e@).contains(spec_index_path(files_dir@)),
{
    let mut want = to_vec(files_dir);
    push_all(&mut want, &[0x2f, 0x69, 0x6e, 0x64, 0x65, 0x78, 0x2e, 0x68, 0x74, 0x6d, 0x6c]);
    proof {
        assert(want@ =~= spec_index_path(files_dir@));
    }
    let ghost ev = entries@.map_values(|e: Vec<u8>| e@);
    let n = entries.len();
    let mut i: usize = 0;
    while i < n
        invariant
            n == entries@.len(),
            ev == entries@.map_values(|e: Vec<u8>| e@),
            n == ev.len(),
            want@ == spec_index_path(files_dir@),
            0 <= i <= n,
            forall|j: int| 0 <= j < i ==> #[trigger] ev[j] != spec_index_path(files_dir@),
        decreases n - i,
    {
        proof {
            assert(ev[i as int] == entries@[i as int]@);
        }
        if bytes_eq(entries[i].as_slice(), want.as_slice()) {
            proof {
                assert(ev.contains(spec_index_path(files_dir@))) by {
                    assert(ev[i as int] == spec_index_path(files_dir@));
                }
            }
            return true;
        }
        i += 1;
    }
    proof {
        if ev.contains(spec_index_path(files_dir@)) {
            let w = choose|w: int| 0 <= w < ev.len() && ev[w] == spec_index_path(files_dir@);
            assert(ev[w] != spec_index_path(files_dir@));
        }
    }
    false
}

} // verus!
