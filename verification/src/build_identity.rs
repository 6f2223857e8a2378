//! The one-line summary that the build's ignored-input diagnostic may print:
//! a fixed vocabulary of space-separated fields, so that no file name or other
//! free text from the working tree can reach the build log.
use crate::text::same_bytes;
use vstd::prelude::*;
use vstd::string::StringSliceAdditionalSpecFns;

verus! {

/// The bytes that `split_ascii_whitespace` separates on.
pub open spec fn is_ascii_space(c: u8) -> bool {
    c == 32 || c == 9 || c == 10 || c == 12 || c == 13
}

/// Words finished so far and the word being read, after the bytes `b`.
pub open spec fn word_state(b: Seq<u8>) -> (Seq<Seq<u8>>, Seq<u8>)
    decreases b.len(),
{
    if b.len() == 0 {
        (seq![], seq![])
    } else {
        let (words, cur) = word_state(b.drop_last());
        if is_ascii_space(b.last()) {
            (if cur.len() > 0 {
                words.push(cur)
            } else {
                words
            }, seq![])
        } else {
            (words, cur.push(b.last()))
        }
    }
}

/// The non-empty runs of non-space bytes, in order.
pub open spec fn words(b: Seq<u8>) -> Seq<Seq<u8>> {
    let (w, cur) = word_state(b);
    if cur.len() > 0 {
        w.push(cur)
    } else {
        w
    }
}

/// Parts finished so far and the part being read, after the bytes `b`.
pub open spec fn part_state(b: Seq<u8>, sep: u8) -> (Seq<Seq<u8>>, Seq<u8>)
    decreases b.len(),
{
    if b.len() == 0 {
        (seq![], seq![])
    } else {
        let (parts, cur) = part_state(b.drop_last(), sep);
        if b.last() == sep {
            (parts.push(cur), seq![])
        } else {
            (parts, cur.push(b.last()))
        }
    }
}

/// The pieces between separators, empty ones included (at least one).
pub open spec fn parts(b: Seq<u8>, sep: u8) -> Seq<Seq<u8>> {
    let (p, cur) = part_state(b, sep);
    p.push(cur)
}

pub open spec fn same_text(x: Seq<u8>, literal: &str) -> bool {
    x == literal.spec_bytes()
}

pub open spec fn stage_ok(x: Seq<u8>) -> bool {
    same_text(x, "failureStage=phase") || same_text(x, "failureStage=root") || same_text(x, "failureStage=status-query")
        || same_text(x, "failureStage=status-format") || same_text(x, "failureStage=limit") || same_text(
        x,
        "failureStage=ignore-query",
    ) || same_text(x, "failureStage=ignore-format") || same_text(x, "failureStage=path") || same_text(
        x,
        "failureStage=metadata",
    ) || same_text(x, "failureStage=helper")
}

pub open spec fn total_ok(x: Seq<u8>) -> bool {
    same_text(x, "total=zero") || same_text(x, "total=one") || same_text(x, "total=few") || same_text(x, "total=many")
}

pub open spec fn overflow_ok(x: Seq<u8>) -> bool {
    same_text(x, "overflow=no") || same_text(x, "overflow=yes")
}

pub open spec fn group_ok(g: Seq<u8>) -> bool {
    let p = parts(g, 58);
    &&& p.len() == 4
    &&& same_text(p[0], "root-rules") || same_text(p[0], "app-rules") || same_text(p[0], "nested-rules") || same_text(
        p[0],
        "internal-external-rules",
    )
    &&& same_text(p[1], "dependency-directory") || same_text(p[1], "build-output") || same_text(p[1], "logs") || same_text(
        p[1],
        "local-config",
    ) || same_text(p[1], "editor-metadata") || same_text(p[1], "other")
    &&& same_text(p[2], "file") || same_text(p[2], "directory") || same_text(p[2], "link") || same_text(p[2], "other")
    &&& same_text(p[3], "one") || same_text(p[3], "few") || same_text(p[3], "many")
}

/// Whether `line` (as UTF-8 bytes) is a summary the build may print.
pub open spec fn summary_ok(b: Seq<u8>) -> bool {
    let f = words(b);
    if b.len() > 1024 || b.contains(10) || b.contains(13) || !(6 <= f.len() <= 7) || !same_text(
        f[0],
        "ignored-input",
    ) || !same_text(f[1], "phase=identity-sample") {
        false
    } else if same_text(f[2], "state=unavailable") {
        f.len() == 7 && same_text(f[3], "total=unknown") && same_text(f[4], "groups=unknown") && same_text(
            f[5],
            "overflow=no",
        ) && stage_ok(f[6])
    } else if f.len() != 6 || !same_text(f[2], "state=ok") || !total_ok(f[3]) || !overflow_ok(f[5]) {
        false
    } else if same_text(f[4], "groups=none") {
        same_text(f[3], "total=zero") && same_text(f[5], "overflow=no")
    } else if !(f[4].len() >= 7 && same_text(f[4].take(7), "groups=")) {
        false
    } else {
        let g = parts(f[4].skip(7), 44);
        g.len() <= 8 && forall|k: int| 0 <= k < g.len() ==> group_ok(#[trigger] g[k])
    }
}

fn lit(x: &[u8], literal: &str) -> (r: bool)
    ensures
        r == same_text(x@, literal),
{
    same_bytes(x, literal.as_bytes())
}

fn copy_vec(v: &Vec<u8>) -> (r: Vec<u8>)
    ensures
        r@ == v@,
{
    let mut r: Vec<u8> = Vec::new();
    let mut i: usize = 0;
    while i < v.len()
        invariant
            i <= v.len(),
            r@ == v@.take(i as int),
        decreases v.len() - i,
    {
        r.push(v[i]);
        assert(v@.take(i + 1) =~= v@.take(i as int).push(v@[i as int]));
        i += 1;
    }
    assert(v@.take(v@.len() as int) =~= v@);
    r
}

/// The spec values of a vector of byte vectors.
pub open spec fn views(v: Seq<Vec<u8>>) -> Seq<Seq<u8>> {
    Seq::new(v.len(), |k: int| v[k]@)
}

fn split_words(b: &[u8]) -> (r: Vec<Vec<u8>>)
    ensures
        views(r@) == words(b@),
{
    let mut done: Vec<Vec<u8>> = Vec::new();
    let mut cur: Vec<u8> = Vec::new();
    let mut i: usize = 0;
    while i < b.len()
        invariant
            i <= b@.len(),
            (views(done@), cur@) == word_state(b@.take(i as int)),
        decreases b.len() - i,
    {
        let c = b[i];
        assert(b@.take(i + 1).drop_last() =~= b@.take(i as int));
        if c == 32 || c == 9 || c == 10 || c == 12 || c == 13 {
            if cur.len() > 0 {
                let w = copy_vec(&cur);
                done.push(w);
                assert(views(done@) =~= word_state(b@.take(i as int)).0.push(cur@));
            }
            cur = Vec::new();
        } else {
            cur.push(c);
        }
        i += 1;
    }
    assert(b@.take(b@.len() as int) =~= b@);
    if cur.len() > 0 {
        let w = copy_vec(&cur);
        done.push(w);
        assert(views(done@) =~= word_state(b@).0.push(cur@));
    } else {
        assert(views(done@) =~= word_state(b@).0);
    }
    done
}

fn split_parts(b: &[u8], sep: u8) -> (r: Vec<Vec<u8>>)
    ensures
        views(r@) == parts(b@, sep),
{
    let mut done: Vec<Vec<u8>> = Vec::new();
    let mut cur: Vec<u8> = Vec::new();
    let mut i: usize = 0;
    while i < b.len()
        invariant
            i <= b@.len(),
            (views(done@), cur@) == part_state(b@.take(i as int), sep),
        decreases b.len() - i,
    {
        let c = b[i];
        assert(b@.take(i + 1).drop_last() =~= b@.take(i as int));
        if c == sep {
            let w = copy_vec(&cur);
            done.push(w);
            assert(views(done@) =~= part_state(b@.take(i as int), sep).0.push(cur@));
            cur = Vec::new();
        } else {
            cur.push(c);
        }
        i += 1;
    }
    assert(b@.take(b@.len() as int) =~= b@);
    let w = copy_vec(&cur);
    done.push(w);
    assert(views(done@) =~= part_state(b@, sep).0.push(cur@));
    done
}

fn contains_byte(b: &[u8], c: u8) -> (r: bool)
    ensures
        r == b@.contains(c),
{
    let mut i: usize = 0;
    while i < b.len()
        invariant
            i <= b@.len(),
            forall|j: int| 0 <= j < i ==> b@[j] != c,
        decreases b.len() - i,
    {
        if b[i] == c {
            assert(b@[i as int] == c);
            return true;
        }
        i += 1;
    }
    false
}

fn group_valid(g: &[u8]) -> (r: bool)
    ensures
        r == group_ok(g@),
{
    let p = split_parts(g, 58);
    assert(views(p@).len() == p@.len());
    if p.len() != 4 {
        return false;
    }
    assert(views(p@)[0] == p@[0]@);
    assert(views(p@)[1] == p@[1]@);
    assert(views(p@)[2] == p@[2]@);
    assert(views(p@)[3] == p@[3]@);
    let a = p[0].as_slice();
    let k = p[1].as_slice();
    let t = p[2].as_slice();
    let n = p[3].as_slice();
    (lit(a, "root-rules") || lit(a, "app-rules") || lit(a, "nested-rules") || lit(
        a,
        "internal-external-rules",
    )) && (lit(k, "dependency-directory") || lit(k, "build-output") || lit(k, "logs") || lit(
        k,
        "local-config",
    ) || lit(k, "editor-metadata") || lit(k, "other")) && (lit(t, "file") || lit(t, "directory")
        || lit(t, "link") || lit(t, "other")) && (lit(n, "one") || lit(n, "few") || lit(n, "many"))
}

/// Whether `line` is a summary the build may print: the fixed vocabulary of
/// an unavailable sample with its failure stage, or a sample with a total,
/// at most eight rule:kind:type:count groups (or none) and an overflow flag,
/// in at most 1024 bytes on one line.
pub fn safe_ignored_summary(line: &str) -> (r: bool)
    ensures
        r == summary_ok(line.spec_bytes()),
{
    let b = line.as_bytes();
    if b.len() > 1024 || contains_byte(b, 10) || contains_byte(b, 13) {
        return false;
    }
    let f = split_words(b);
    proof {
        assert(views(f@).len() == f@.len());
        assert forall|k: int| 0 <= k < f@.len() implies views(f@)[k] == #[trigger] f@[k]@ by {}
    }
    if f.len() < 6 || f.len() > 7 || !lit(f[0].as_slice(), "ignored-input") || !lit(
        f[1].as_slice(),
        "phase=identity-sample",
    ) {
        return false;
    }
    let f2 = f[2].as_slice();
    let f3 = f[3].as_slice();
    let f4 = f[4].as_slice();
    let f5 = f[5].as_slice();
    if lit(f2, "state=unavailable") {
        if f.len() != 7 {
            return false;
        }
        let f6 = f[6].as_slice();
        return lit(f3, "total=unknown") && lit(f4, "groups=unknown") && lit(f5, "overflow=no") && (
        lit(f6, "failureStage=phase") || lit(f6, "failureStage=root") || lit(
            f6,
            "failureStage=status-query",
        ) || lit(f6, "failureStage=status-format") || lit(f6, "failureStage=limit") || lit(
            f6,
            "failureStage=ignore-query",
        ) || lit(f6, "failureStage=ignore-format") || lit(f6, "failureStage=path") || lit(
            f6,
            "failureStage=metadata",
        ) || lit(f6, "failureStage=helper"));
    }
    if f.len() != 6 || !lit(f2, "state=ok") || !(lit(f3, "total=zero") || lit(f3, "total=one")
        || lit(f3, "total=few") || lit(f3, "total=many")) || !(lit(f5, "overflow=no") || lit(
        f5,
        "overflow=yes",
    )) {
        return false;
    }
    if lit(f4, "groups=none") {
        return lit(f3, "total=zero") && lit(f5, "overflow=no");
    }
    if f4.len() < 7 {
        return false;
    }
    let mut head: Vec<u8> = Vec::new();
    let mut rest: Vec<u8> = Vec::new();
    let mut i: usize = 0;
    while i < f4.len()
        invariant
            i <= f4@.len(),
            f4@.len() >= 7,
            head@ == f4@.take(if i < 7 { i as int } else { 7 }),
            rest@ == if i < 7 { seq![] } else { f4@.subrange(7, i as int) },
        decreases f4.len() - i,
    {
        if i < 7 {
            head.push(f4[i]);
            assert(f4@.take(i + 1) =~= f4@.take(i as int).push(f4@[i as int]));
        } else {
            rest.push(f4[i]);
            assert(f4@.subrange(7, i + 1) =~= f4@.subrange(7, i as int).push(f4@[i as int]));
        }
        i += 1;
    }
    assert(rest@ =~= f4@.skip(7));
    if !lit(head.as_slice(), "groups=") {
        return false;
    }
    let g = split_parts(rest.as_slice(), 44);
    assert(views(g@).len() == g@.len());
    if g.len() > 8 {
        return false;
    }
    let mut k: usize = 0;
    #[verifier::loop_isolation(false)]
    while k < g.len()
        invariant
            k <= g@.len(),
            views(g@) == parts(f4@.skip(7), 44),
            forall|j: int| 0 <= j < k ==> group_ok(#[trigger] parts(f4@.skip(7), 44)[j]),
        decreases g.len() - k,
    {
        assert(views(g@)[k as int] == g@[k as int]@);
        if !group_valid(g[k].as_slice()) {
            return false;
        }
        k += 1;
    }
    true
}

} // verus!
