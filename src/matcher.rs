//! Matching releases with their tags and choosing where the release selector starts.

use vstd::prelude::*;
use vstd::seq_lib::*;
use crate::github::{Release, ReleaseAndTag, ReleaseView, Tag};
use crate::text::starts_with;

verus! {

/// Why a list of releases and tags could not be matched up.
#[derive(Debug)]
pub enum ResolveError {
    /// The host listed no releases.
    NoReleases,
    /// The host listed no tags.
    NoTags,
    /// No tag carries the newest release's tag name (given here).
    NoMatchingTag(String),
}

/// What std's `Debug` formatting makes of a string: it in double quotes, with quotes,
/// backslashes and control characters escaped.
pub uninterp spec fn debug_quoted_of(s: Seq<char>) -> Seq<char>;

/// Relies on std's `Debug` formatting of `str`.
#[verifier::external_body]
fn debug_quoted(s: &str) -> (r: String)
    ensures
        r@ == debug_quoted_of(s@),
{
    format!("{:?}", s)
}

impl ResolveError {
    /// The text shown to the user for this error.
    pub fn message(&self) -> (r: String)
        ensures
            self is NoReleases ==> r@ == "Releases fetch returned 0 releases"@,
            self is NoTags ==> r@ == "Tags fetch returned 0 tags"@,
            self matches ResolveError::NoMatchingTag(n) ==> r@
                == "Latest release has no matching tag: "@ + debug_quoted_of(n@),
    {
        match self {
            ResolveError::NoReleases => String::from_str("Releases fetch returned 0 releases"),
            ResolveError::NoTags => String::from_str("Tags fetch returned 0 tags"),
            ResolveError::NoMatchingTag(n) => {
                let mut r = String::from_str("Latest release has no matching tag: ");
                let q = debug_quoted(n.as_str());
                r.append(q.as_str());
                r
            },
        }
    }
}

/// The matched pairs, newest first, and the index the release selector starts at.
pub struct Resolution {
    pub pairs: Vec<ReleaseAndTag>,
    pub selected: usize,
}

/// A release and its tag, as values.
pub open spec fn pair_view(p: ReleaseAndTag) -> (ReleaseView, Tag) {
    (p.release@, p.tag)
}

pub open spec fn pairs_view(v: Seq<ReleaseAndTag>) -> Seq<(ReleaseView, Tag)> {
    v.map_values(|p: ReleaseAndTag| pair_view(p))
}

pub open spec fn releases_view(v: Seq<Release>) -> Seq<ReleaseView> {
    v.map_values(|r: Release| r@)
}

/// Position of the first tag in `pool` named `name`, or -1 when there is none.
pub open spec fn find_tag(pool: Seq<Tag>, name: Seq<char>) -> int
    decreases pool.len(),
{
    if pool.len() == 0 {
        -1
    } else if find_tag(pool.drop_last(), name) >= 0 {
        find_tag(pool.drop_last(), name)
    } else if pool.last().name@ == name {
        pool.len() - 1
    } else {
        -1
    }
}

/// Whether some tag in `tags` is named `name`.
pub open spec fn has_tag_named(tags: Seq<Tag>, name: Seq<char>) -> bool {
    exists|j: int| 0 <= j < tags.len() && tags[j].name@ == name
}

/// Matching in host order: each release takes the first unused tag of its name, and a
/// release with no such tag is left out. Gives the pairs and the tags left unused.
pub open spec fn pairing(releases: Seq<ReleaseView>, tags: Seq<Tag>) -> (
    Seq<(ReleaseView, Tag)>,
    Seq<Tag>,
)
    decreases releases.len(),
{
    if releases.len() == 0 {
        (Seq::empty(), tags)
    } else {
        let prev = pairing(releases.drop_last(), tags);
        let j = find_tag(prev.1, releases.last().tag_name);
        if j >= 0 {
            (prev.0.push((releases.last(), prev.1[j])), prev.1.remove(j))
        } else {
            prev
        }
    }
}

/// The tag's commit starts with the installed version, which is not empty.
pub open spec fn is_installed(tag: Tag, installed: Seq<char>) -> bool {
    installed.len() > 0 && installed.is_prefix_of(tag.commit.sha@)
}

/// `k` is where the selector starts: the last pair whose tag is the installed one,
/// or 0 when no pair is.
pub open spec fn is_start_index(
    pairs: Seq<(ReleaseView, Tag)>,
    installed: Seq<char>,
    k: int,
) -> bool {
    if exists|i: int| 0 <= i < pairs.len() && is_installed(#[trigger] pairs[i].1, installed) {
        &&& 0 <= k < pairs.len()
        &&& is_installed(pairs[k].1, installed)
        &&& forall|i: int| k < i < pairs.len() ==> !is_installed(#[trigger] pairs[i].1, installed)
    } else {
        k == 0
    }
}

proof fn lemma_find_tag(pool: Seq<Tag>, name: Seq<char>)
    ensures
        -1 <= find_tag(pool, name) < pool.len(),
        find_tag(pool, name) >= 0 ==> pool[find_tag(pool, name)].name@ == name,
        find_tag(pool, name) >= 0 ==> forall|k: int|
            0 <= k < find_tag(pool, name) ==> pool[k].name@ != name,
        find_tag(pool, name) == -1 ==> forall|k: int| 0 <= k < pool.len() ==> pool[k].name@ != name,
    decreases pool.len(),
{
    if pool.len() > 0 {
        lemma_find_tag(pool.drop_last(), name);
        assert(forall|k: int| 0 <= k < pool.len() - 1 ==> pool.drop_last()[k] == pool[k]);
    }
}

/// Every pair that matching builds carries the release's tag name, and no tag is
/// used twice: the tags of the pairs and the tags left over are, together, exactly
/// the tags that were given.
pub proof fn lemma_pairing_sound(releases: Seq<ReleaseView>, tags: Seq<Tag>)
    ensures
        forall|k: int|
            0 <= k < pairing(releases, tags).0.len() ==> (#[trigger] pairing(
                releases,
                tags,
            ).0[k]).1.name@ == pairing(releases, tags).0[k].0.tag_name,
        pairing(releases, tags).0.map_values(|p: (ReleaseView, Tag)| p.1).to_multiset().add(
            pairing(releases, tags).1.to_multiset(),
        ) == tags.to_multiset(),
    decreases releases.len(),
{
    broadcast use group_to_multiset_ensures;

    if releases.len() > 0 {
        let prev = pairing(releases.drop_last(), tags);
        lemma_pairing_sound(releases.drop_last(), tags);
        let j = find_tag(prev.1, releases.last().tag_name);
        lemma_find_tag(prev.1, releases.last().tag_name);
        if j >= 0 {
            let t = prev.1[j];
            let before = prev.0.map_values(|p: (ReleaseView, Tag)| p.1);
            let after = prev.0.push((releases.last(), t)).map_values(|p: (ReleaseView, Tag)| p.1);
            assert(after =~= before.push(t));
            assert(after.to_multiset() == before.to_multiset().insert(t));
            assert(prev.1.remove(j).to_multiset() == prev.1.to_multiset().remove(t));
            assert(after.to_multiset().add(prev.1.remove(j).to_multiset()) =~= before.to_multiset().add(
                prev.1.to_multiset(),
            ));
        }
    }
}

/// The positions in `tags` of the tags that matching pairs up (first) and of those it
/// leaves over (second), in the order of [`pairing`].
pub open spec fn pairing_positions(releases: Seq<ReleaseView>, tags: Seq<Tag>) -> (Seq<int>, Seq<int>)
    decreases releases.len(),
{
    if releases.len() == 0 {
        (Seq::empty(), Seq::new(tags.len(), |k: int| k))
    } else {
        let prev = pairing_positions(releases.drop_last(), tags);
        let pool = pairing(releases.drop_last(), tags).1;
        let j = find_tag(pool, releases.last().tag_name);
        if j >= 0 {
            (prev.0.push(prev.1[j]), prev.1.remove(j))
        } else {
            prev
        }
    }
}

proof fn lemma_positions(releases: Seq<ReleaseView>, tags: Seq<Tag>)
    ensures
        ({
            let (f, pos) = pairing_positions(releases, tags);
            let (pairs, pool) = pairing(releases, tags);
            &&& f.len() == pairs.len() && pos.len() == pool.len()
            &&& forall|i: int| 0 <= i < f.len() ==> 0 <= #[trigger] f[i] < tags.len() && pairs[i].1 == tags[f[i]]
            &&& forall|k: int| 0 <= k < pos.len() ==> 0 <= #[trigger] pos[k] < tags.len() && pool[k] == tags[pos[k]]
            &&& forall|a: int, b: int| 0 <= a < b < f.len() ==> f[a] != f[b]
            &&& forall|a: int, b: int| 0 <= a < b < pos.len() ==> pos[a] != pos[b]
            &&& forall|a: int, b: int| 0 <= a < f.len() && 0 <= b < pos.len() ==> f[a] != pos[b]
        }),
    decreases releases.len(),
{
    if releases.len() > 0 {
        lemma_positions(releases.drop_last(), tags);
        let (f, pos) = pairing_positions(releases.drop_last(), tags);
        let (pairs, pool) = pairing(releases.drop_last(), tags);
        let j = find_tag(pool, releases.last().tag_name);
        lemma_find_tag(pool, releases.last().tag_name);
        if j >= 0 {
            let f2 = f.push(pos[j]);
            let pos2 = pos.remove(j);
            let pairs2 = pairs.push((releases.last(), pool[j]));
            let pool2 = pool.remove(j);
            assert forall|k: int| 0 <= k < pos2.len() implies 0 <= #[trigger] pos2[k] < tags.len()
                && pool2[k] == tags[pos2[k]] by {
                if k < j {
                    assert(pos2[k] == pos[k]);
                } else {
                    assert(pos2[k] == pos[k + 1]);
                }
            }
            assert forall|i: int| 0 <= i < f2.len() implies 0 <= #[trigger] f2[i] < tags.len()
                && pairs2[i].1 == tags[f2[i]] by {
                if i < f.len() {
                    assert(f2[i] == f[i]);
                }
            }
            assert forall|a: int, b: int| 0 <= a < b < f2.len() implies f2[a] != f2[b] by {
                if b == f.len() {
                    assert(f[a] != pos[j]);
                }
            }
            assert forall|a: int, b: int| 0 <= a < b < pos2.len() implies pos2[a] != pos2[b] by {
                let a0 = if a < j { a } else { a + 1 };
                let b0 = if b < j { b } else { b + 1 };
                assert(pos2[a] == pos[a0] && pos2[b] == pos[b0]);
            }
            assert forall|a: int, b: int| 0 <= a < f2.len() && 0 <= b < pos2.len() implies f2[a]
                != pos2[b] by {
                let b0 = if b < j { b } else { b + 1 };
                assert(pos2[b] == pos[b0]);
                if a == f.len() {
                    assert(f2[a] == pos[j]);
                } else {
                    assert(f2[a] == f[a]);
                }
            }
        }
    }
}

/// `f` gives, for each pair, a position in `tags` holding that pair's tag, and no two
/// pairs the same position.
pub open spec fn tag_positions(f: Seq<int>, pairs: Seq<(ReleaseView, Tag)>, tags: Seq<Tag>) -> bool {
    &&& f.len() == pairs.len()
    &&& forall|i: int| 0 <= i < f.len() ==> 0 <= #[trigger] f[i] < tags.len() && pairs[i].1 == tags[f[i]]
    &&& forall|a: int, b: int| 0 <= a < b < f.len() ==> f[a] != f[b]
}

/// No tag backs two pairs: matching maps its pairs one to one onto positions in
/// `tags` that hold their tags.
pub proof fn lemma_pairing_uses_each_tag_once(releases: Seq<ReleaseView>, tags: Seq<Tag>)
    ensures
        exists|f: Seq<int>| #[trigger] tag_positions(f, pairing(releases, tags).0, tags),
{
    lemma_positions(releases, tags);
    let f = pairing_positions(releases, tags).0;
    assert(tag_positions(f, pairing(releases, tags).0, tags));
}

/// Position of the first tag in `pool` named `name`, or `pool.len()` when none is.
pub(crate) fn position_of_tag(pool: &Vec<Tag>, name: &String) -> (j: usize)
    ensures
        j <= pool@.len(),
        j < pool@.len() ==> find_tag(pool@, name@) == j,
        j == pool@.len() ==> find_tag(pool@, name@) == -1,
{
    proof {
        lemma_find_tag(pool@, name@);
    }
    let mut j: usize = 0;
    while j < pool.len() && !(pool[j].name == *name)
        invariant
            j <= pool@.len(),
            forall|k: int| 0 <= k < j ==> pool@[k].name@ != name@,
        decreases pool@.len() - j,
    {
        j = j + 1;
    }
    j
}

/// Matches `releases` (newest first) with `tags` and finds the pair of the installed
/// version, named by a prefix of its commit hash.
///
/// The newest release must have a tag; older releases without one are left out.
pub fn resolve(releases: &Vec<Release>, tags: &Vec<Tag>, installed: &str) -> (r: Result<
    Resolution,
    ResolveError,
>)
    ensures
        releases@.len() == 0 ==> r matches Err(ResolveError::NoReleases),
        releases@.len() > 0 && tags@.len() == 0 ==> r matches Err(ResolveError::NoTags),
        releases@.len() > 0 && tags@.len() > 0 && !has_tag_named(tags@, releases@[0].tag_name@)
            ==> (r matches Err(ResolveError::NoMatchingTag(n)) && n@ == releases@[0].tag_name@),
        releases@.len() > 0 && tags@.len() > 0 && has_tag_named(tags@, releases@[0].tag_name@)
            ==> (r matches Ok(res) && pairs_view(res.pairs@) == pairing(
            releases_view(releases@),
            tags@,
        ).0 && is_start_index(pairs_view(res.pairs@), installed@, res.selected as int)
            && res.pairs@.len() > 0 && res.selected < res.pairs@.len() && forall|k: int|
            0 <= k < res.pairs@.len() ==> (#[trigger] res.pairs@[k]).wf()),
{
    if releases.len() == 0 {
        return Err(ResolveError::NoReleases);
    }
    if tags.len() == 0 {
        return Err(ResolveError::NoTags);
    }
    let ghost rv = releases_view(releases@);
    let mut pool = tags.clone();
    assert(pool@ =~= tags@);
    let mut pairs: Vec<ReleaseAndTag> = Vec::new();
    let mut i: usize = 0;
    while i < releases.len()
        invariant
            rv == releases_view(releases@),
            0 < releases@.len(),
            0 < tags@.len(),
            i <= releases@.len(),
            pairing(rv.take(i as int), tags@) == (pairs_view(pairs@), pool@),
            i > 0 ==> pairs@.len() > 0,
            i > 0 ==> has_tag_named(tags@, releases@[0].tag_name@),
        decreases releases@.len() - i,
    {
        let release = &releases[i];
        let j = position_of_tag(&pool, &release.tag_name);
        assert(rv.take(i + 1).drop_last() =~= rv.take(i as int));
        assert(rv.take(i + 1).last() == release@);
        if j < pool.len() {
            let tag = pool.remove(j);
            let ghost old_pairs = pairs@;
            pairs.push(ReleaseAndTag { release: release.clone(), tag });
            assert(pairs_view(pairs@) =~= pairs_view(old_pairs).push((release@, tag)));
            proof {
                if i == 0 {
                    assert(rv.take(0) =~= Seq::<ReleaseView>::empty());
                    assert(pool@.len() + 1 == tags@.len());
                    lemma_find_tag(tags@, releases@[0].tag_name@);
                    assert(tags@[j as int].name@ == releases@[0].tag_name@);
                }
            }
        } else if i == 0 {
            proof {
                assert(rv.take(0) =~= Seq::<ReleaseView>::empty());
                lemma_find_tag(tags@, releases@[0].tag_name@);
            }
            return Err(ResolveError::NoMatchingTag(release.tag_name.clone()));
        }
        i = i + 1;
    }
    assert(rv.take(releases@.len() as int) =~= rv);
    proof {
        lemma_pairing_sound(rv, tags@);
        assert forall|k: int| 0 <= k < pairs@.len() implies (#[trigger] pairs@[k]).wf() by {
            assert(pairs_view(pairs@)[k] == pair_view(pairs@[k]));
        }
    }
    let ghost pv = pairs_view(pairs@);
    let mut selected: usize = 0;
    let mut k: usize = 0;
    while k < pairs.len()
        invariant
            pv == pairs_view(pairs@),
            k <= pairs@.len(),
            pairs@.len() > 0,
            is_start_index(pv.take(k as int), installed@, selected as int),
            selected < pairs@.len(),
        decreases pairs@.len() - k,
    {
        let sha = pairs[k].tag.commit.sha.as_str();
        let hit = installed.unicode_len() > 0 && starts_with(sha, installed);
        assert(pv.take(k + 1).drop_last() =~= pv.take(k as int));
        assert(pv.take(k + 1)[k as int] == pv[k as int]);
        assert(hit == is_installed(pv[k as int].1, installed@));
        if hit {
            selected = k;
        }
        proof {
            let t = pv.take(k + 1);
            if !hit {
                if exists|x: int| 0 <= x < t.len() && is_installed(#[trigger] t[x].1, installed@) {
                    let x = choose|x: int| 0 <= x < t.len() && is_installed(#[trigger] t[x].1, installed@);
                    assert(pv.take(k as int)[x].1 == t[x].1);
                }
            }
        }
        k = k + 1;
    }
    assert(pv.take(pairs@.len() as int) =~= pv);
    Ok(Resolution { pairs, selected })
}

} // verus!
