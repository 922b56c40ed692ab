//! The images of the hosting stack, kept in order and without repeats.
use vstd::prelude::*;

use crate::text::owned;

verus! {

/// Lexicographic order of texts by their characters (the order of `str`).
pub open spec fn text_lt(a: Seq<char>, b: Seq<char>) -> bool
    decreases a.len(),
{
    if a.len() == 0 {
        b.len() > 0
    } else if b.len() == 0 {
        false
    } else if a[0] < b[0] {
        true
    } else if a[0] == b[0] {
        text_lt(a.drop_first(), b.drop_first())
    } else {
        false
    }
}

pub proof fn lemma_text_lt_irreflexive(a: Seq<char>)
    ensures
        !text_lt(a, a),
    decreases a.len(),
{
    if a.len() > 0 {
        lemma_text_lt_irreflexive(a.drop_first());
    }
}

pub proof fn lemma_text_lt_total(a: Seq<char>, b: Seq<char>)
    ensures
        a == b || text_lt(a, b) || text_lt(b, a),
    decreases a.len(),
{
    if a.len() > 0 && b.len() > 0 && a[0] == b[0] {
        lemma_text_lt_total(a.drop_first(), b.drop_first());
        if a.drop_first() == b.drop_first() {
            assert(a =~= seq![a[0]] + a.drop_first());
            assert(b =~= seq![b[0]] + b.drop_first());
        }
    }
    if a.len() == 0 && b.len() == 0 {
        assert(a =~= b);
    }
}

pub proof fn lemma_text_lt_transitive(a: Seq<char>, b: Seq<char>, c: Seq<char>)
    requires
        text_lt(a, b),
        text_lt(b, c),
    ensures
        text_lt(a, c),
    decreases a.len(),
{
    if a.len() > 0 && b.len() > 0 && c.len() > 0 && a[0] == b[0] && b[0] == c[0] {
        lemma_text_lt_transitive(a.drop_first(), b.drop_first(), c.drop_first());
    }
}

pub proof fn lemma_text_lt_asymmetric(a: Seq<char>, b: Seq<char>)
    requires
        text_lt(a, b),
    ensures
        !text_lt(b, a),
{
    if text_lt(b, a) {
        lemma_text_lt_transitive(a, b, a);
        lemma_text_lt_irreflexive(a);
    }
}

/// Is `a` before `b` in the order of texts?
pub fn text_less(a: &[char], b: &[char]) -> (r: bool)
    ensures
        r == text_lt(a@, b@),
{
    let mut i: usize = 0;
    assert(a@.skip(0) =~= a@);
    assert(b@.skip(0) =~= b@);
    while i < a.len() && i < b.len() && a[i] == b[i]
        invariant
            i <= a.len(),
            i <= b.len(),
            text_lt(a@, b@) == text_lt(a@.skip(i as int), b@.skip(i as int)),
        decreases a.len() - i,
    {
        assert(a@.skip(i as int).drop_first() =~= a@.skip(i + 1));
        assert(b@.skip(i as int).drop_first() =~= b@.skip(i + 1));
        i = i + 1;
    }
    if i == a.len() {
        i < b.len()
    } else if i == b.len() {
        false
    } else {
        assert(a@.skip(i as int)[0] == a@[i as int]);
        assert(b@.skip(i as int)[0] == b@[i as int]);
        a[i] < b[i]
    }
}

/// Strictly increasing: in order, and no text twice.
pub open spec fn strictly_sorted(s: Seq<Seq<char>>) -> bool {
    forall|i: int, j: int| 0 <= i < j < s.len() ==> text_lt(#[trigger] s[i], #[trigger] s[j])
}

pub open spec fn text_views(v: Seq<String>) -> Seq<Seq<char>> {
    v.map_values(|s: String| s@)
}

proof fn lemma_insert_contains(s: Seq<Seq<char>>, j: int, x: Seq<char>, e: Seq<char>)
    requires
        0 <= j <= s.len(),
    ensures
        s.insert(j, x).contains(e) <==> (s.contains(e) || e == x),
{
    let t = s.insert(j, x);
    if t.contains(e) {
        let k = choose|k: int| 0 <= k < t.len() && t[k] == e;
        if k < j {
            assert(s[k] == e);
        } else if k > j {
            assert(s[k - 1] == e);
        }
    }
    if s.contains(e) {
        let k = choose|k: int| 0 <= k < s.len() && s[k] == e;
        if k < j {
            assert(t[k] == e);
        } else {
            assert(t[k + 1] == e);
        }
    }
    if e == x {
        assert(t[j] == e);
    }
}

proof fn lemma_push_contains(s: Seq<Seq<char>>, x: Seq<char>, e: Seq<char>)
    ensures
        s.push(x).contains(e) <==> (s.contains(e) || e == x),
{
    let t = s.push(x);
    if t.contains(e) {
        let k = choose|k: int| 0 <= k < t.len() && t[k] == e;
        if k < s.len() {
            assert(s[k] == e);
        }
    }
    if s.contains(e) {
        let k = choose|k: int| 0 <= k < s.len() && s[k] == e;
        assert(t[k] == e);
    }
    if e == x {
        assert(t[s.len() as int] == e);
    }
}

/// The texts of `v`, in order and without repeats (`sort` then `dedup`).
pub fn sort_dedup(v: &Vec<String>) -> (r: Vec<String>)
    ensures
        strictly_sorted(text_views(r@)),
        forall|e: Seq<char>| text_views(r@).contains(e) <==> text_views(v@).contains(e),
{
    let ghost src = text_views(v@);
    let mut r: Vec<String> = Vec::new();
    let mut i: usize = 0;
    while i < v.len()
        invariant
            i <= v.len(),
            src == text_views(v@),
            strictly_sorted(text_views(r@)),
            forall|e: Seq<char>| text_views(r@).contains(e) <==> src.take(i as int).contains(e),
        decreases v.len() - i,
    {
        let x = crate::text::chars_of(v[i].as_str());
        let ghost rv = text_views(r@);
        assert(forall|e: Seq<char>| rv.contains(e) <==> src.take(i as int).contains(e));
        let mut j: usize = 0;
        while j < r.len() && text_less(crate::text::chars_of(r[j].as_str()).as_slice(), x.as_slice())
            invariant
                j <= r.len(),
                rv == text_views(r@),
                i < v.len(),
                src == text_views(v@),
                x@ == src[i as int],
                forall|k: int| 0 <= k < j ==> text_lt(#[trigger] rv[k], x@),
            decreases r.len() - j,
        {
            j = j + 1;
        }
        assert(src.take(i + 1) =~= src.take(i as int).push(src[i as int]));
        proof {
            assert forall|e: Seq<char>| src.take(i + 1).contains(e) <==> (src.take(i as int).contains(e) || e == x@) by {
                lemma_push_contains(src.take(i as int), x@, e);
            }
        }
        let dup = j < r.len() && crate::text::eq_chars(
            crate::text::chars_of(r[j].as_str()).as_slice(),
            x.as_slice(),
        );
        if dup {
            assert(rv[j as int] == x@);
            assert(rv.contains(x@));
            assert(src.take(i as int).contains(x@));
            assert forall|e: Seq<char>| text_views(r@).contains(e) <==> src.take(i + 1).contains(e) by {
                if e == x@ {
                    assert(text_views(r@).contains(e));
                }
            }
        } else {
            proof {
                if j < rv.len() {
                    lemma_text_lt_total(rv[j as int], x@);
                }
            }
            let s = v[i].clone();
            r.insert(j, s);
            assert(text_views(r@) =~= rv.insert(j as int, x@));
            assert forall|a: int, b: int| 0 <= a < b < text_views(r@).len() implies text_lt(
                #[trigger] text_views(r@)[a],
                #[trigger] text_views(r@)[b],
            ) by {
                let t = text_views(r@);
                if b < j {
                    assert(t[a] == rv[a] && t[b] == rv[b]);
                } else if b == j {
                    assert(t[a] == rv[a]);
                } else if a == j {
                    assert(t[b] == rv[b - 1]);
                    if b - 1 > j {
                        assert(text_lt(rv[j as int], rv[b - 1]));
                        lemma_text_lt_transitive(x@, rv[j as int], rv[b - 1]);
                    }
                } else if a < j {
                    assert(t[a] == rv[a] && t[b] == rv[b - 1]);
                    assert(text_lt(rv[a], x@));
                    if b - 1 == j {
                        lemma_text_lt_transitive(rv[a], x@, rv[j as int]);
                    } else {
                    }
                } else {
                    assert(t[a] == rv[a - 1] && t[b] == rv[b - 1]);
                }
            }
            assert forall|e: Seq<char>| text_views(r@).contains(e) <==> src.take(i + 1).contains(e) by {
                lemma_insert_contains(rv, j as int, x@, e);
                assert(rv.contains(e) <==> src.take(i as int).contains(e));
            }
        }
        i = i + 1;
    }
    assert(src.take(v.len() as int) =~= src);
    r
}

pub open spec fn error_pages_image_name() -> Seq<char> {
    "nginx:alpine"@
}

/// The image that serves the error pages.
pub fn error_pages_image() -> (s: &'static str)
    ensures
        s@ == error_pages_image_name(),
{
    "nginx:alpine"
}

/// The images of the hosting stack that are kept current: the stack's own
/// images, the error pages image, and Traefik's image when the proxy is on
/// and provisioned by the daemon; sorted, each once.
pub fn hosting_images(
    stack_images: &Vec<String>,
    proxy_enabled: bool,
    proxy_auto_provision: bool,
    traefik_image: &str,
) -> (images: Vec<String>)
    ensures
        strictly_sorted(text_views(images@)),
        forall|e: Seq<char>|
            text_views(images@).contains(e) <==> (text_views(stack_images@).contains(e) || e
                == error_pages_image_name() || (proxy_enabled && proxy_auto_provision && e
                == traefik_image@)),
{
    let mut all: Vec<String> = Vec::new();
    let mut i: usize = 0;
    while i < stack_images.len()
        invariant
            i <= stack_images.len(),
            text_views(all@) =~= text_views(stack_images@).take(i as int),
        decreases stack_images.len() - i,
    {
        let ghost before = text_views(all@);
        all.push(stack_images[i].clone());
        assert(text_views(all@) =~= before.push(stack_images@[i as int]@));
        assert(text_views(stack_images@).take(i + 1) =~= text_views(stack_images@).take(i as int).push(stack_images@[i as int]@));
        i = i + 1;
    }
    assert(text_views(stack_images@).take(stack_images.len() as int) =~= text_views(
        stack_images@,
    ));
    let ghost base = text_views(all@);
    all.push(owned(error_pages_image()));
    let ghost with_pages = text_views(all@);
    assert(with_pages =~= base.push(error_pages_image_name()));
    if proxy_enabled && proxy_auto_provision {
        all.push(owned(traefik_image));
        assert(text_views(all@) =~= with_pages.push(traefik_image@));
    }
    let images = sort_dedup(&all);
    assert forall|e: Seq<char>|
        text_views(images@).contains(e) <==> (text_views(stack_images@).contains(e) || e
            == error_pages_image_name() || (proxy_enabled && proxy_auto_provision && e
            == traefik_image@)) by {
        let a = text_views(all@);
        if a.contains(e) {
            let k = choose|k: int| 0 <= k < a.len() && a[k] == e;
            if k < base.len() {
                assert(base[k] == e);
            }
        }
        if text_views(stack_images@).contains(e) {
            let k = choose|k: int| 0 <= k < base.len() && base[k] == e;
            assert(a[k] == e);
        }
        if e == error_pages_image_name() {
            assert(a[base.len() as int] == e);
        }
        if proxy_enabled && proxy_auto_provision && e == traefik_image@ {
            assert(a[base.len() as int + 1] == e);
        }
    }
    images
}

} // verus!
