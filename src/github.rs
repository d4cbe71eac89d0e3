//! Release-host data: releases, their assets, tags and matched release/tag pairs.

use vstd::prelude::*;
use vstd::string::*;

verus! {

/// A downloadable file attached to a release.
#[derive(Debug)]
pub struct Asset {
    pub name: String,
    pub url: String,
}

/// A published release, identified by the name of the tag it was cut from.
#[derive(Debug)]
pub struct Release {
    pub tag_name: String,
    pub assets: Vec<Asset>,
    pub published_at: Option<String>,
}

/// The commit a tag points at.
#[derive(Debug)]
pub struct Commit {
    pub sha: String,
}

/// A source-control tag.
#[derive(Debug)]
pub struct Tag {
    pub name: String,
    pub commit: Commit,
}

/// A release together with the tag of the same name.
#[derive(Debug)]
pub struct ReleaseAndTag {
    pub release: Release,
    pub tag: Tag,
}

impl Clone for Asset {
    fn clone(&self) -> (r: Self)
        ensures
            r == *self,
    {
        Asset { name: self.name.clone(), url: self.url.clone() }
    }
}

/// What a release holds, as values.
pub struct ReleaseView {
    pub tag_name: Seq<char>,
    pub assets: Seq<Asset>,
    pub published_at: Option<Seq<char>>,
}

impl View for Release {
    type V = ReleaseView;

    open spec fn view(&self) -> ReleaseView {
        ReleaseView {
            tag_name: self.tag_name@,
            assets: self.assets@,
            published_at: match self.published_at {
                Some(p) => Some(p@),
                None => None,
            },
        }
    }
}

impl Clone for Release {
    fn clone(&self) -> (r: Self)
        ensures
            r@ == self@,
    {
        let assets = self.assets.clone();
        assert(assets@ =~= self.assets@);
        let published_at = match &self.published_at {
            Some(p) => Some(p.clone()),
            None => None,
        };
        Release { tag_name: self.tag_name.clone(), assets, published_at }
    }
}

impl Clone for Commit {
    fn clone(&self) -> (r: Self)
        ensures
            r == *self,
    {
        Commit { sha: self.sha.clone() }
    }
}

impl Clone for Tag {
    fn clone(&self) -> (r: Self)
        ensures
            r == *self,
    {
        Tag { name: self.name.clone(), commit: self.commit.clone() }
    }
}

impl Clone for ReleaseAndTag {
    fn clone(&self) -> (r: Self)
        ensures
            r.release@ == self.release@,
            r.tag == self.tag,
    {
        ReleaseAndTag { release: self.release.clone(), tag: self.tag.clone() }
    }
}

impl ReleaseAndTag {
    /// A pair is well formed when the tag carries the release's tag name.
    pub open spec fn wf(&self) -> bool {
        self.tag.name@ == self.release.tag_name@
    }
}

/// `d` is the date part of the timestamp `s`: everything before the first `T`.
pub open spec fn is_date_part(d: Seq<char>, s: Seq<char>) -> bool {
    &&& d.is_prefix_of(s)
    &&& !d.contains('T')
    &&& d.len() < s.len() ==> s[d.len() as int] == 'T'
}

/// The line that shows when a release was published, e.g. `"\nReleased: 2024-05-01"`
/// for a timestamp `2024-05-01T10:00:00Z`; empty when the release has no timestamp.
pub fn extract_date_from_release(release: Release) -> (r: String)
    ensures
        release.published_at is None ==> r@ == Seq::<char>::empty(),
        release.published_at matches Some(p) ==> exists|d: Seq<char>|
            is_date_part(d, p@) && r@ == "\nReleased: "@ + d,
{
    match &release.published_at {
        None => String::new(),
        Some(p) => {
            let s = p.as_str();
            let n = s.unicode_len();
            let mut i: usize = 0;
            while i < n && s.get_char(i) != 'T'
                invariant
                    n == s@.len(),
                    i <= n,
                    forall|j: int| 0 <= j < i ==> s@[j] != 'T',
                decreases n - i,
            {
                i = i + 1;
            }
            let d = s.substring_char(0, i);
            assert(is_date_part(d@, p@)) by {
                assert(d@ =~= s@.subrange(0, i as int));
                if d@.contains('T') {
                    let k = choose|k: int| 0 <= k < d@.len() && d@[k] == 'T';
                    assert(s@[k] == 'T');
                }
            }
            let mut r = String::from_str("\nReleased: ");
            r.append(d);
            r
        },
    }
}

} // verus!
