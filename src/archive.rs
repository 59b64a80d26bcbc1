//! Archive handling that does not touch the disk: recognising the container
//! format of a downloaded blob and deciding where, if anywhere, each entry of
//! an archive may be written.

use std::io::Read;
use vstd::prelude::*;
use vstd::string::*;
use crate::text::{is_absolute, is_sep, name_is_absolute, push_char, push_string, views};

verus! {

/// The container formats that can be unpacked.
#[derive(Clone, Copy, Debug, PartialEq, Eq, Structural)]
pub enum ArchiveFormat {
    TarGz,
    TarBz2,
    TarZstd,
    Zip,
}

/// Whether a single-frame zstd decoder over the bytes yields its first byte
/// without error.
pub uninterp spec fn zstd_frame_opens(b: Seq<u8>) -> bool;

/// Whether a gzip decoder over the bytes parses a complete header.
pub uninterp spec fn gzip_header_parses(b: Seq<u8>) -> bool;

/// Whether a bzip2 decoder over the bytes yields its first byte without error.
pub uninterp spec fn bzip2_stream_opens(b: Seq<u8>) -> bool;

/// Whether the bytes hold a readable zip central directory.
pub uninterp spec fn zip_directory_parses(b: Seq<u8>) -> bool;

/// Relies on `zstd::stream::read::Decoder`: a single-frame decoder is opened
/// on the bytes and asked for one byte.
#[verifier::external_body]
fn probe_zstd(b: &[u8]) -> (r: bool)
    ensures
        r == zstd_frame_opens(b@),
{
    let mut buf = [0u8; 1];
    match zstd::stream::read::Decoder::with_buffer(b) {
        Ok(d) => d.single_frame().read(&mut buf).is_ok(),
        Err(_) => false,
    }
}

/// Relies on `flate2::bufread::GzDecoder::header`: present once the gzip
/// header has been parsed.
#[verifier::external_body]
fn probe_gzip(b: &[u8]) -> (r: bool)
    ensures
        r == gzip_header_parses(b@),
{
    flate2::bufread::GzDecoder::new(b).header().is_some()
}

/// Relies on `bzip2::bufread::BzDecoder`: a decoder is opened on the bytes
/// and asked for one byte.
#[verifier::external_body]
fn probe_bzip2(b: &[u8]) -> (r: bool)
    ensures
        r == bzip2_stream_opens(b@),
{
    let mut buf = [0u8; 1];
    bzip2::bufread::BzDecoder::new(b).read(&mut buf).is_ok()
}

/// Relies on `zip::read::ZipArchive::new`: succeeds when the central
/// directory can be read.
#[verifier::external_body]
fn probe_zip(b: &[u8]) -> (r: bool)
    ensures
        r == zip_directory_parses(b@),
{
    zip::read::ZipArchive::new(std::io::Cursor::new(b)).is_ok()
}

/// The format chosen from the outcome of each probe, in the fixed order
/// zstd, gzip, bzip2, zip.
pub open spec fn format_by_priority(zstd: bool, gzip: bool, bzip2: bool, zip: bool) -> Option<ArchiveFormat> {
    if zstd {
        Some(ArchiveFormat::TarZstd)
    } else if gzip {
        Some(ArchiveFormat::TarGz)
    } else if bzip2 {
        Some(ArchiveFormat::TarBz2)
    } else if zip {
        Some(ArchiveFormat::Zip)
    } else {
        None
    }
}

/// The format recognised in a blob by content alone.
pub open spec fn sniffed_format(b: Seq<u8>) -> Option<ArchiveFormat> {
    format_by_priority(
        zstd_frame_opens(b),
        gzip_header_parses(b),
        bzip2_stream_opens(b),
        zip_directory_parses(b),
    )
}

/// Picks the format from the outcome of each probe.
pub fn format_from_probes(zstd: bool, gzip: bool, bzip2: bool, zip: bool) -> (r: Option<ArchiveFormat>)
    ensures
        r == format_by_priority(zstd, gzip, bzip2, zip),
{
    if zstd {
        Some(ArchiveFormat::TarZstd)
    } else if gzip {
        Some(ArchiveFormat::TarGz)
    } else if bzip2 {
        Some(ArchiveFormat::TarBz2)
    } else if zip {
        Some(ArchiveFormat::Zip)
    } else {
        None
    }
}

impl ArchiveFormat {
    /// Recognises the format of `bytes` by content, never by name. Later
    /// probes are only run when the earlier ones fail.
    pub fn peek(bytes: &[u8]) -> (r: Option<ArchiveFormat>)
        ensures
            r == sniffed_format(bytes@),
    {
        if probe_zstd(bytes) {
            return format_from_probes(true, false, false, false);
        }
        if probe_gzip(bytes) {
            return format_from_probes(false, true, false, false);
        }
        if probe_bzip2(bytes) {
            return format_from_probes(false, false, true, false);
        }
        format_from_probes(false, false, false, probe_zip(bytes))
    }

    /// Whether entries of this format are read through a tar stream.
    pub fn is_tar(&self) -> (r: bool)
        ensures
            r == !(*self is Zip),
    {
        !matches!(self, ArchiveFormat::Zip)
    }
}

/// Whether a path segment names something: neither empty nor `.`.
pub open spec fn keep_segment(c: Seq<char>) -> bool {
    c.len() > 0 && c != seq!['.']
}

/// Whether a path segment is the parent directory `..`.
pub open spec fn is_parent(c: Seq<char>) -> bool {
    c == seq!['.', '.']
}

/// Left-to-right scan of a path: the segments completed so far (only those
/// that name something) and the segment being read.
pub open spec fn scan(s: Seq<char>) -> (Seq<Seq<char>>, Seq<char>)
    decreases s.len(),
{
    if s.len() == 0 {
        (Seq::empty(), Seq::empty())
    } else {
        let (done, cur) = scan(s.drop_last());
        if is_sep(s.last()) {
            (if keep_segment(cur) { done.push(cur) } else { done }, Seq::empty())
        } else {
            (done, cur.push(s.last()))
        }
    }
}

/// The components of a path: its segments between separators, without empty
/// and `.` segments.
pub open spec fn components(s: Seq<char>) -> Seq<Seq<char>> {
    let (done, cur) = scan(s);
    if keep_segment(cur) {
        done.push(cur)
    } else {
        done
    }
}

/// Components joined by `/`.
pub open spec fn join_components(cs: Seq<Seq<char>>) -> Seq<char>
    decreases cs.len(),
{
    if cs.len() == 0 {
        Seq::empty()
    } else if cs.len() == 1 {
        cs[0]
    } else {
        join_components(cs.drop_last()) + seq!['/'] + cs.last()
    }
}

/// A relative path placed inside the directory `dst`.
pub open spec fn under(dst: Seq<char>, rel: Seq<char>) -> Seq<char> {
    if dst.len() == 0 {
        rel
    } else if is_sep(dst.last()) {
        dst + rel
    } else {
        dst + seq!['/'] + rel
    }
}

/// The components left once each `..` has cancelled the component before
/// it; `None` when a `..` climbs above the start.
pub open spec fn resolve(cs: Seq<Seq<char>>) -> Option<Seq<Seq<char>>>
    decreases cs.len(),
{
    if cs.len() == 0 {
        Some(Seq::empty())
    } else {
        match resolve(cs.drop_last()) {
            None => None,
            Some(st) => if is_parent(cs.last()) {
                if st.len() == 0 {
                    None
                } else {
                    Some(st.drop_last())
                }
            } else {
                Some(st.push(cs.last()))
            },
        }
    }
}

/// Where an archive entry named `name` goes under `dst` once its first
/// `strip` components are dropped and `..` is resolved: nowhere when the name
/// is absolute, when nothing is left, or when a `..` climbs above the
/// destination.
pub open spec fn entry_target_spec(dst: Seq<char>, name: Seq<char>, strip: nat) -> Option<Seq<char>> {
    let cs = components(name);
    if is_absolute(name) || cs.len() <= strip {
        None
    } else {
        match resolve(cs.subrange(strip as int, cs.len() as int)) {
            None => None,
            Some(st) => if st.len() == 0 {
                None
            } else {
                Some(under(dst, join_components(st)))
            },
        }
    }
}

fn keeps(c: &String) -> (r: bool)
    ensures
        r == keep_segment(c@),
{
    let s = c.as_str();
    let n = s.unicode_len();
    if n == 0 {
        return false;
    }
    if n == 1 && s.get_char(0) == '.' {
        assert(c@ =~= seq!['.']);
        return false;
    }
    assert(c@ != seq!['.']) by {
        if n == 1 {
            assert(c@[0] != seq!['.'][0]);
        }
    }
    true
}

fn is_parent_segment(c: &String) -> (r: bool)
    ensures
        r == is_parent(c@),
{
    let s = c.as_str();
    let n = s.unicode_len();
    if n != 2 {
        assert(c@.len() != seq!['.', '.'].len());
        return false;
    }
    if s.get_char(0) == '.' && s.get_char(1) == '.' {
        assert(c@ =~= seq!['.', '.']);
        true
    } else {
        assert(c@[0] != '.' || c@[1] != '.');
        false
    }
}

/// Splits a path into its components.
pub fn split_components(name: &str) -> (r: Vec<String>)
    ensures
        views(r@) == components(name@),
{
    let n = name.unicode_len();
    let mut parts: Vec<String> = Vec::new();
    let mut cur = String::new();
    let mut i: usize = 0;
    assert(name@.subrange(0, 0) =~= Seq::<char>::empty());
    assert(views(parts@) =~= Seq::<Seq<char>>::empty());
    while i < n
        invariant
            i <= n,
            n == name@.len(),
            (views(parts@), cur@) == scan(name@.subrange(0, i as int)),
        decreases n - i,
    {
        let c = name.get_char(i);
        assert(name@.subrange(0, i + 1).drop_last() =~= name@.subrange(0, i as int));
        assert(name@.subrange(0, i + 1).last() == c);
        if c == '/' || c == '\\' {
            if keeps(&cur) {
                let ghost before = parts@;
                let done = cur;
                parts.push(done);
                assert(views(parts@) =~= views(before).push(done@));
            }
            cur = String::new();
        } else {
            push_char(&mut cur, c);
        }
        i = i + 1;
    }
    assert(name@.subrange(0, n as int) =~= name@);
    if keeps(&cur) {
        let ghost before = parts@;
        let done = cur;
        parts.push(done);
        assert(views(parts@) =~= views(before).push(done@));
    }
    parts
}

/// The file an archive entry is written to under `dst`, after dropping its
/// first `strip` components and resolving `..`; `None` when the entry must
/// be skipped because it is absolute, empty, or climbs above `dst`.
pub fn entry_target(dst: &str, name: &str, strip: usize) -> (r: Option<String>)
    ensures
        r matches Some(p) ==> entry_target_spec(dst@, name@, strip as nat) == Some(p@),
        r is None ==> entry_target_spec(dst@, name@, strip as nat) is None,
{
    if name_is_absolute(name) {
        return None;
    }
    let parts = split_components(name);
    let ghost cs = components(name@);
    if parts.len() <= strip {
        return None;
    }
    let ghost rest = cs.subrange(strip as int, cs.len() as int);
    let mut stack: Vec<String> = Vec::new();
    let mut climbed = false;
    let mut j: usize = strip;
    assert(rest.subrange(0, 0) =~= Seq::<Seq<char>>::empty());
    assert(views(stack@) =~= Seq::<Seq<char>>::empty());
    while j < parts.len()
        invariant
            strip <= j <= parts@.len(),
            views(parts@) == cs,
            cs == components(name@),
            rest == cs.subrange(strip as int, cs.len() as int),
            climbed ==> resolve(rest.subrange(0, j - strip)) is None,
            !climbed ==> resolve(rest.subrange(0, j - strip)) == Some(views(stack@)),
        decreases parts.len() - j,
    {
        let ghost sub = rest.subrange(0, j + 1 - strip);
        assert(sub.drop_last() =~= rest.subrange(0, j - strip));
        assert(sub.last() == cs[j as int]);
        assert(cs[j as int] == parts@[j as int]@);
        if !climbed {
            if is_parent_segment(&parts[j]) {
                if stack.len() == 0 {
                    climbed = true;
                } else {
                    let ghost before = stack@;
                    stack.pop();
                    assert(views(stack@) =~= views(before).drop_last());
                }
            } else {
                push_string(&mut stack, parts[j].clone());
            }
        }
        j = j + 1;
    }
    assert(rest.subrange(0, parts.len() - strip) =~= rest);
    if climbed || stack.len() == 0 {
        return None;
    }
    let ghost st = views(stack@);
    let mut rel = String::new();
    let mut k: usize = 0;
    while k < stack.len()
        invariant
            k <= stack@.len(),
            stack@.len() > 0,
            st == views(stack@),
            k == 0 ==> rel@.len() == 0,
            k > 0 ==> rel@ == join_components(st.subrange(0, k as int)),
        decreases stack.len() - k,
    {
        if k > 0 {
            push_char(&mut rel, '/');
        }
        rel.append(stack[k].as_str());
        assert(st.subrange(0, k + 1).drop_last() =~= st.subrange(0, k as int));
        assert(st[k as int] == stack@[k as int]@);
        k = k + 1;
    }
    assert(st.subrange(0, stack@.len() as int) =~= st);
    Some(join_under(dst, &rel))
}

/// Places the relative path `rel` inside the directory `dst`.
pub fn join_under(dst: &str, rel: &String) -> (r: String)
    ensures
        r@ == under(dst@, rel@),
{
    let n = dst.unicode_len();
    let mut r = String::from_str(dst);
    if n > 0 {
        let last = dst.get_char(n - 1);
        if !(last == '/' || last == '\\') {
            push_char(&mut r, '/');
        }
    }
    r.append(rel.as_str());
    r
}

/// A path component that names something and holds no separator.
pub open spec fn clean_segment(c: Seq<char>) -> bool {
    keep_segment(c) && forall|k: int| 0 <= k < c.len() ==> !is_sep(#[trigger] c[k])
}

proof fn lemma_scan_clean(s: Seq<char>)
    ensures
        forall|i: int| 0 <= i < scan(s).0.len() ==> clean_segment(#[trigger] scan(s).0[i]),
        forall|k: int| 0 <= k < scan(s).1.len() ==> !is_sep(#[trigger] scan(s).1[k]),
    decreases s.len(),
{
    if s.len() > 0 {
        lemma_scan_clean(s.drop_last());
        let (d, c) = scan(s.drop_last());
        if is_sep(s.last()) {
            if keep_segment(c) {
                assert forall|i: int| 0 <= i < d.push(c).len() implies clean_segment(#[trigger] d.push(c)[i]) by {
                    if i < d.len() {
                        assert(d.push(c)[i] == d[i]);
                    }
                }
            }
        } else {
            assert forall|k: int| 0 <= k < c.push(s.last()).len() implies !is_sep(#[trigger] c.push(s.last())[k]) by {
                if k < c.len() {
                    assert(c.push(s.last())[k] == c[k]);
                }
            }
        }
    }
}

/// Every component of a path names something and holds no separator.
pub proof fn lemma_components_clean(s: Seq<char>)
    ensures
        forall|i: int| 0 <= i < components(s).len() ==> clean_segment(#[trigger] components(s)[i]),
{
    lemma_scan_clean(s);
    let (d, c) = scan(s);
    if keep_segment(c) {
        assert forall|i: int| 0 <= i < d.push(c).len() implies clean_segment(#[trigger] d.push(c)[i]) by {
            if i < d.len() {
                assert(d.push(c)[i] == d[i]);
            }
        }
    }
}

proof fn lemma_resolve_clean(cs: Seq<Seq<char>>)
    requires
        forall|i: int| 0 <= i < cs.len() ==> clean_segment(#[trigger] cs[i]),
    ensures
        resolve(cs) matches Some(st) ==> forall|i: int| 0 <= i < st.len()
            ==> clean_segment(#[trigger] st[i]) && !is_parent(st[i]),
    decreases cs.len(),
{
    if cs.len() > 0 {
        let init = cs.drop_last();
        assert forall|i: int| 0 <= i < init.len() implies clean_segment(#[trigger] init[i]) by {
            assert(init[i] == cs[i]);
        }
        lemma_resolve_clean(init);
        assert(clean_segment(cs[cs.len() - 1]));
        if let Some(st) = resolve(init) {
            if !is_parent(cs.last()) {
                let st2 = st.push(cs.last());
                assert forall|i: int| 0 <= i < st2.len() implies clean_segment(#[trigger] st2[i]) && !is_parent(st2[i]) by {
                    if i < st.len() {
                        assert(st2[i] == st[i]);
                    }
                }
            } else if st.len() > 0 {
                let st2 = st.drop_last();
                assert forall|i: int| 0 <= i < st2.len() implies clean_segment(#[trigger] st2[i]) && !is_parent(st2[i]) by {
                    assert(st2[i] == st[i]);
                }
            }
        }
    }
}

/// No archive entry lands outside the destination: absolute names and names
/// whose `..` climbs above the start after stripping are skipped, and any
/// other entry is placed under `dst` by components that name something, hold
/// no separator and are never `..`.
pub proof fn law_entries_stay_inside(dst: Seq<char>, name: Seq<char>, strip: nat)
    ensures
        is_absolute(name) ==> entry_target_spec(dst, name, strip) is None,
        components(name).len() > strip && resolve(components(name).subrange(strip as int, components(name).len() as int)) is None
            ==> entry_target_spec(dst, name, strip) is None,
        entry_target_spec(dst, name, strip) matches Some(p) ==> exists|st: Seq<Seq<char>>| {
            &&& resolve(components(name).subrange(strip as int, components(name).len() as int)) == Some(st)
            &&& p == under(dst, join_components(st))
            &&& st.len() > 0
            &&& forall|i: int| 0 <= i < st.len() ==> clean_segment(#[trigger] st[i]) && !is_parent(st[i])
        },
{
    lemma_components_clean(name);
    let cs = components(name);
    if cs.len() > strip {
        let rest = cs.subrange(strip as int, cs.len() as int);
        assert forall|i: int| 0 <= i < rest.len() implies clean_segment(#[trigger] rest[i]) by {
            assert(rest[i] == cs[i + strip]);
        }
        lemma_resolve_clean(rest);
    }
}

proof fn lemma_resolve_plain(cs: Seq<Seq<char>>)
    requires
        forall|i: int| 0 <= i < cs.len() ==> !is_parent(#[trigger] cs[i]),
    ensures
        resolve(cs) == Some(cs),
    decreases cs.len(),
{
    if cs.len() > 0 {
        let init = cs.drop_last();
        assert forall|i: int| 0 <= i < init.len() implies !is_parent(#[trigger] init[i]) by {
            assert(init[i] == cs[i]);
        }
        lemma_resolve_plain(init);
        assert(!is_parent(cs[cs.len() - 1]));
        assert(init.push(cs.last()) =~= cs);
    }
}

proof fn lemma_scan_append_plain(x: Seq<char>, y: Seq<char>)
    requires
        forall|k: int| 0 <= k < y.len() ==> !is_sep(#[trigger] y[k]),
    ensures
        scan(x + y) == (scan(x).0, scan(x).1 + y),
    decreases y.len(),
{
    if y.len() == 0 {
        assert(x + y =~= x);
        assert(scan(x).1 + y =~= scan(x).1);
    } else {
        let y0 = y.drop_last();
        assert forall|k: int| 0 <= k < y0.len() implies !is_sep(#[trigger] y0[k]) by {
            assert(y0[k] == y[k]);
        }
        lemma_scan_append_plain(x, y0);
        assert((x + y).drop_last() =~= x + y0);
        assert((x + y).last() == y.last());
        assert(!is_sep(y[y.len() - 1]));
        assert((scan(x).1 + y0).push(y.last()) =~= scan(x).1 + y);
    }
}

proof fn lemma_scan_of_join(cs: Seq<Seq<char>>)
    requires
        cs.len() > 0,
        forall|i: int| 0 <= i < cs.len() ==> clean_segment(#[trigger] cs[i]),
    ensures
        scan(join_components(cs)) == (cs.drop_last(), cs.last()),
    decreases cs.len(),
{
    let last = cs.last();
    assert(clean_segment(cs[cs.len() - 1]));
    if cs.len() == 1 {
        lemma_scan_append_plain(Seq::empty(), last);
        assert(Seq::<char>::empty() + last =~= last);
        assert(cs.drop_last() =~= Seq::<Seq<char>>::empty());
        assert(scan(Seq::<char>::empty()).1 + last =~= last);
    } else {
        let init = cs.drop_last();
        assert forall|i: int| 0 <= i < init.len() implies clean_segment(#[trigger] init[i]) by {
            assert(init[i] == cs[i]);
        }
        lemma_scan_of_join(init);
        let x = join_components(init);
        let xs = x + seq!['/'];
        assert(xs.drop_last() =~= x);
        assert(is_sep(xs.last()));
        assert(clean_segment(init[init.len() - 1]));
        assert(init.drop_last().push(init.last()) =~= init);
        assert(scan(xs) == (init, Seq::<char>::empty()));
        lemma_scan_append_plain(xs, last);
        assert(join_components(cs) == xs + last);
        assert(Seq::<char>::empty() + last =~= last);
    }
}

/// A relative path written from clean components, none of them `..`,
/// unpacks with nothing stripped to the same relative path under the
/// destination: packing and unpacking keep every relative path.
pub proof fn law_clean_paths_round_trip(dst: Seq<char>, cs: Seq<Seq<char>>)
    requires
        cs.len() > 0,
        forall|i: int| 0 <= i < cs.len() ==> clean_segment(#[trigger] cs[i]) && !is_parent(cs[i]),
        !is_absolute(join_components(cs)),
    ensures
        components(join_components(cs)) == cs,
        entry_target_spec(dst, join_components(cs), 0) == Some(under(dst, join_components(cs))),
{
    lemma_scan_of_join(cs);
    assert(clean_segment(cs[cs.len() - 1]));
    assert(cs.drop_last().push(cs.last()) =~= cs);
    assert(cs.subrange(0, cs.len() as int) =~= cs);
    assert forall|j: int| 0 <= j < cs.len() implies !#[trigger] is_parent(cs[j]) by {
        assert(clean_segment(cs[j]) && !is_parent(cs[j]));
    }
    lemma_resolve_plain(cs);
}

/// Whether two paths name the same place component by component, whatever
/// separators they use.
pub fn same_components(a: &str, b: &str) -> (r: bool)
    ensures
        r == (components(a@) == components(b@)),
{
    let pa = split_components(a);
    let pb = split_components(b);
    if pa.len() != pb.len() {
        assert(views(pa@).len() != views(pb@).len());
        return false;
    }
    let mut i: usize = 0;
    while i < pa.len()
        invariant
            i <= pa@.len(),
            pa@.len() == pb@.len(),
            views(pa@) == components(a@),
            views(pb@) == components(b@),
            forall|k: int| 0 <= k < i ==> views(pa@)[k] == views(pb@)[k],
        decreases pa.len() - i,
    {
        if !(pa[i] == pb[i]) {
            assert(views(pa@)[i as int] != views(pb@)[i as int]);
            return false;
        }
        i = i + 1;
    }
    assert(views(pa@) =~= views(pb@));
    true
}

} // verus!
