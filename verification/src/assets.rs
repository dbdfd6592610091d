//! The asset source: path hygiene, extension and content-type resolution,
//! and the bundled in-memory file store.
//!
//! An asset path starts with `/`; the root path maps to `/index.html`; any
//! path with a `..` component is rejected before lookup. Content types come
//! from the file extension; `.wasm` always resolves to `application/wasm`;
//! unknown extensions carry no content type.

use vstd::prelude::*;

use crate::util::{bytes_eq, push_all, starts_with, to_vec};

verus! {

/// `/index.html` as bytes.
pub open spec fn spec_index_html() -> Seq<u8> {
    seq![
        0x2fu8,
        0x69u8,
        0x6eu8,
        0x64u8,
        0x65u8,
        0x78u8,
        0x2eu8,
        0x68u8,
        0x74u8,
        0x6du8,
        0x6cu8,
    ]
}

/// The root path `/` is rewritten to `/index.html`; everything else stands.
pub open spec fn spec_rewrite_root(p: Seq<u8>) -> Seq<u8> {
    if p == seq![0x2fu8] {
        spec_index_html()
    } else {
        p
    }
}

/// Rewrite the root path.
pub fn rewrite_root(p: &[u8]) -> (r: Vec<u8>)
    ensures
        r@ == spec_rewrite_root(p@),
{
    if p.len() == 1 && p[0] == 0x2f {
        assert(p@ =~= seq![0x2fu8]);
        let out = to_vec(&[0x2f, 0x69, 0x6e, 0x64, 0x65, 0x78, 0x2e, 0x68, 0x74, 0x6d, 0x6c]);
        assert(out@ =~= spec_index_html());
        out
    } else {
        assert(p@ != seq![0x2fu8]);
        to_vec(p)
    }
}

/// The path has a `..` component: two dots delimited by `/` or the ends of
/// the path.
pub open spec fn spec_has_dotdot(p: Seq<u8>) -> bool {
    exists|i: int|
        {
            &&& 0 <= i
            &&& i + 2 <= p.len()
            &&& #[trigger] p[i] == 0x2eu8
            &&& p[i + 1] == 0x2eu8
            &&& (i == 0 || p[i - 1] == 0x2fu8)
            &&& (i + 2 == p.len() || p[i + 2] == 0x2fu8)
        }
}

/// Does the path contain a `..` component?
pub fn has_dotdot(p: &[u8]) -> (r: bool)
    ensures
        r == spec_has_dotdot(p@),
{
    if p.len() < 2 {
        return false;
    }
    let n = p.len();
    let mut i: usize = 0;
    while i <= n - 2
        invariant
            n == p@.len(),
            2 <= n,
            0 <= i,
            i + 2 <= n + 1,
            forall|j: int|
                0 <= j && j < i && j + 2 <= p@.len() ==> !{
                    &&& #[trigger] p@[j] == 0x2eu8
                    &&& p@[j + 1] == 0x2eu8
                    &&& (j == 0 || p@[j - 1] == 0x2fu8)
                    &&& (j + 2 == p@.len() || p@[j + 2] == 0x2fu8)
                },
        decreases n - i,
    {
        let dots = p[i] == 0x2e && p[i + 1] == 0x2e;
        let left_ok = i == 0 || p[i - 1] == 0x2f;
        let right_ok = i + 2 == n || p[i + 2] == 0x2f;
        if dots && left_ok && right_ok {
            return true;
        }
        i += 1;
    }
    false
}

/// The full lookup path: the serve directory followed by the asset path
/// (which starts with `/`).
pub open spec fn spec_fullpath(base: Seq<u8>, p: Seq<u8>) -> Seq<u8> {
    base + p
}

/// Join the serve directory and an asset path.
pub fn fullpath(base: &[u8], p: &[u8]) -> (r: Vec<u8>)
    ensures
        r@ == spec_fullpath(base@, p@),
{
    let mut out = to_vec(base);
    push_all(&mut out, p);
    out
}

/// The extension of a path: the bytes after the last `.` of the final
/// component, unless that dot starts the component; `None` when there is no
/// such dot. Scans backwards from position `i`.
pub open spec fn spec_ext_from(p: Seq<u8>, i: int) -> Option<Seq<u8>>
    recommends
        0 <= i <= p.len(),
    decreases i,
{
    if i <= 0 {
        None
    } else if p[i - 1] == 0x2fu8 {
        None
    } else if p[i - 1] == 0x2eu8 {
        if i - 1 == 0 || p[i - 2] == 0x2fu8 {
            None
        } else {
            Some(p.subrange(i, p.len() as int))
        }
    } else {
        spec_ext_from(p, i - 1)
    }
}

/// The extension of a path.
pub open spec fn spec_extension(p: Seq<u8>) -> Option<Seq<u8>> {
    spec_ext_from(p, p.len() as int)
}

/// Extract the extension of a path.
pub fn extension_of(p: &[u8]) -> (r: Option<Vec<u8>>)
    ensures
        match r {
            Some(e) => spec_extension(p@) == Some(e@),
            None => spec_extension(p@) is None,
        },
{
    let n = p.len();
    let mut i: usize = n;
    while i > 0
        invariant
            n == p@.len(),
            0 <= i <= n,
            spec_extension(p@) == spec_ext_from(p@, i as int),
        decreases i,
    {
        let b = p[i - 1];
        if b == 0x2f {
            return None;
        }
        if b == 0x2e {
            if i - 1 == 0 || p[i - 2] == 0x2f {
                return None;
            }
            let mut e: Vec<u8> = Vec::new();
            let mut j: usize = i;
            while j < n
                invariant
                    n == p@.len(),
                    i <= j <= n,
                    e@ == p@.subrange(i as int, j as int),
                decreases n - j,
            {
                e.push(p[j]);
                assert(p@.subrange(i as int, j as int).push(p@[j as int]) =~= p@.subrange(
                    i as int,
                    j + 1,
                ));
                j += 1;
            }
            return Some(e);
        }
        i -= 1;
    }
    None
}

/// What `conduit_mime_types::get_mime_type` answers for an extension given
/// as bytes: a fixed table lookup, a function of the extension alone
/// (extensions that are not UTF-8 text have no entry).
pub uninterp spec fn mime_lookup(ext: Seq<u8>) -> Option<Seq<u8>>;

/// Relies on `conduit_mime_types::get_mime_type` for the content type of a
/// file extension.
#[verifier::external_body]
fn mime_for_extension(ext: &[u8]) -> (r: Option<Vec<u8>>)
    ensures
        match r {
            Some(m) => mime_lookup(ext@) == Some(m@),
            None => mime_lookup(ext@) is None,
        },
{
    let text = match std::str::from_utf8(ext) {
        Ok(t) => t,
        Err(_) => return None,
    };
    conduit_mime_types::get_mime_type(text).map(|m| m.as_bytes().to_vec())
}

/// `wasm` as bytes.
pub open spec fn spec_wasm_ext() -> Seq<u8> {
    seq![0x77u8, 0x61u8, 0x73u8, 0x6du8]
}

/// `application/wasm` as bytes.
pub open spec fn spec_wasm_mime() -> Seq<u8> {
    seq![
        0x61u8,
        0x70u8,
        0x70u8,
        0x6cu8,
        0x69u8,
        0x63u8,
        0x61u8,
        0x74u8,
        0x69u8,
        0x6fu8,
        0x6eu8,
        0x2fu8,
        0x77u8,
        0x61u8,
        0x73u8,
        0x6du8,
    ]
}

/// The content type served for a path: `.wasm` always resolves to
/// `application/wasm`, other extensions go through the mime table, and a
/// path without extension carries no content type.
pub open spec fn spec_content_type_for(p: Seq<u8>) -> Option<Seq<u8>> {
    match spec_extension(p) {
        Some(ext) => if ext == spec_wasm_ext() {
            Some(spec_wasm_mime())
        } else {
            mime_lookup(ext)
        },
        None => None,
    }
}

/// Resolve the content type for a path.
pub fn content_type_for(p: &[u8]) -> (r: Option<Vec<u8>>)
    ensures
        match r {
            Some(m) => spec_content_type_for(p@) == Some(m@),
            None => spec_content_type_for(p@) is None,
        },
{
    match extension_of(p) {
        Some(ext) => {
            if bytes_eq(ext.as_slice(), &[0x77, 0x61, 0x73, 0x6d]) {
                assert(ext@ =~= spec_wasm_ext());
                let m = to_vec(
                    &[
                        0x61,
                        0x70,
                        0x70,
                        0x6c,
                        0x69,
                        0x63,
                        0x61,
                        0x74,
                        0x69,
                        0x6f,
                        0x6e,
                        0x2f,
                        0x77,
                        0x61,
                        0x73,
                        0x6d,
                    ],
                );
                assert(m@ =~= spec_wasm_mime());
                Some(m)
            } else {
                assert(ext@ != spec_wasm_ext());
                mime_for_extension(ext.as_slice())
            }
        },
        None => None,
    }
}

/// Files bundled into the application, keyed by their full lookup path.
pub struct BundledAssets {
    entries: Vec<(Vec<u8>, Vec<u8>)>,
}

/// Lookup in a sequence of path/content pairs; a later entry for the same
/// path wins.
pub open spec fn spec_lookup_seq(es: Seq<(Seq<u8>, Seq<u8>)>, p: Seq<u8>) -> Option<Seq<u8>>
    decreases es.len(),
{
    if es.len() == 0 {
        None
    } else if es.last().0 == p {
        Some(es.last().1)
    } else {
        spec_lookup_seq(es.drop_last(), p)
    }
}

impl BundledAssets {
    /// The bundled entries as path/content pairs.
    pub closed spec fn entries_view(&self) -> Seq<(Seq<u8>, Seq<u8>)> {
        self.entries@.map_values(|e: (Vec<u8>, Vec<u8>)| (e.0@, e.1@))
    }

    /// What a lookup of `p` answers.
    pub open spec fn spec_get(&self, p: Seq<u8>) -> Option<Seq<u8>> {
        spec_lookup_seq(self.entries_view(), p)
    }

    /// An empty bundle.
    pub fn new() -> (r: Self)
        ensures
            r.entries_view() == Seq::<(Seq<u8>, Seq<u8>)>::empty(),
    {
        let r = BundledAssets { entries: Vec::new() };
        proof {
            assert(r.entries_view() =~= Seq::<(Seq<u8>, Seq<u8>)>::empty());
        }
        r
    }

    /// Add a file under its full lookup path; it shadows any earlier entry
    /// for the same path.
    pub fn add(&mut self, path: Vec<u8>, content: Vec<u8>)
        ensures
            final(self).entries_view() == old(self).entries_view().push((path@, content@)),
            forall|p: Seq<u8>|
                #[trigger] final(self).spec_get(p) == if p == path@ {
                    Some(content@)
                } else {
                    old(self).spec_get(p)
                },
    {
        let ghost pv = path@;
        let ghost cv = content@;
        self.entries.push((path, content));
        proof {
            assert(self.entries_view() =~= old(self).entries_view().push((pv, cv)));
            assert forall|p: Seq<u8>| #[trigger] self.spec_get(p) == (if p == pv {
                Some(cv)
            } else {
                old(self).spec_get(p)
            }) by {
                assert(self.entries_view().drop_last() =~= old(self).entries_view());
            }
        }
    }

    /// Number of bundled files.
    pub fn len(&self) -> (r: usize)
        ensures
            r == self.entries_view().len(),
    {
        self.entries.len()
    }

    /// Look up a path; returns a copy of the content.
    pub fn get(&self, p: &[u8]) -> (r: Option<Vec<u8>>)
        ensures
            match r {
                Some(c) => self.spec_get(p@) == Some(c@),
                None => self.spec_get(p@) is None,
            },
    {
        let n = self.entries.len();
        proof {
            assert(self.entries_view().subrange(0, n as int) =~= self.entries_view());
        }
        let mut i: usize = n;
        while i > 0
            invariant
                n == self.entries@.len(),
                0 <= i <= n,
                self.spec_get(p@) == spec_lookup_seq(
                    self.entries_view().subrange(0, i as int),
                    p@,
                ),
            decreases i,
        {
            let e = &self.entries[i - 1];
            proof {
                assert(self.entries_view().subrange(0, i as int).last() == (
                    self.entries@[i - 1].0@,
                    self.entries@[i - 1].1@,
                ));
                assert(self.entries_view().subrange(0, i as int).drop_last()
                    =~= self.entries_view().subrange(0, i - 1));
            }
            if bytes_eq(e.0.as_slice(), p) {
                return Some(to_vec(e.1.as_slice()));
            }
            i -= 1;
        }
        proof {
            assert(self.entries_view().subrange(0, 0) =~= Seq::<(Seq<u8>, Seq<u8>)>::empty());
        }
        None
    }
}

} // verus!
