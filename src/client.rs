//! The release host seen as values: where each request goes, how a reply becomes a
//! release, a tag list or an error, and how a streamed download reports progress.

use vstd::prelude::*;
use vstd::string::*;
use crate::github::{Release, Tag};
use crate::matcher::find_tag;

verus! {

/// The host's address for repository API requests.
pub const API_BASE: &'static str = "https://api.github.com/repos/";

/// Why a request to the release host gave no usable answer.
#[derive(Debug)]
pub enum FetchError {
    /// The connection or the read failed (the transport's message).
    Transport(String),
    /// The host answered with a status that is not a success.
    Api(u16),
    /// The body did not have the expected shape (the decoder's message).
    Decode(String),
    /// The tag list holds no tag of the name asked for.
    TagNotFound(String),
}

/// What the transport got back: the status, and the body decoded as `T` or the
/// decoder's message.
pub struct Reply<T> {
    pub status: u16,
    pub body: Result<T, String>,
}

/// A 2xx status.
pub open spec fn is_success(status: u16) -> bool {
    200 <= status <= 299
}

/// What a request comes to: a transport failure, a refused status, a body that did
/// not decode, or the decoded value.
pub open spec fn reply_outcome<T>(reply: Result<Reply<T>, String>) -> Result<T, FetchError> {
    match reply {
        Err(m) => Err(FetchError::Transport(m)),
        Ok(rep) => if !is_success(rep.status) {
            Err(FetchError::Api(rep.status))
        } else {
            match rep.body {
                Ok(v) => Ok(v),
                Err(m) => Err(FetchError::Decode(m)),
            }
        },
    }
}

fn check_reply<T>(reply: Result<Reply<T>, String>) -> (r: Result<T, FetchError>)
    ensures
        r == reply_outcome(reply),
{
    match reply {
        Err(m) => Err(FetchError::Transport(m)),
        Ok(rep) => if rep.status < 200 || rep.status > 299 {
            Err(FetchError::Api(rep.status))
        } else {
            match rep.body {
                Ok(v) => Ok(v),
                Err(m) => Err(FetchError::Decode(m)),
            }
        },
    }
}

fn repo_url(repo: &str, tail: &str) -> (r: String)
    ensures
        r@ == API_BASE@ + repo@ + tail@,
{
    let mut r = String::from_str(API_BASE);
    r.append(repo);
    r.append(tail);
    r
}

/// The address of the latest release of `repo` (`owner/name`).
pub fn latest_release_url(repo: &str) -> (r: String)
    ensures
        r@ == API_BASE@ + repo@ + "/releases/latest"@,
{
    repo_url(repo, "/releases/latest")
}

/// The address of the release list of `repo`.
pub fn releases_url(repo: &str) -> (r: String)
    ensures
        r@ == API_BASE@ + repo@ + "/releases"@,
{
    repo_url(repo, "/releases")
}

/// The address of the tag list of `repo`.
pub fn tags_url(repo: &str) -> (r: String)
    ensures
        r@ == API_BASE@ + repo@ + "/tags"@,
{
    repo_url(repo, "/tags")
}

/// The latest release, from the reply to [`latest_release_url`].
pub fn fetch_latest_release(reply: Result<Reply<Release>, String>) -> (r: Result<
    Release,
    FetchError,
>)
    ensures
        r == reply_outcome(reply),
{
    check_reply(reply)
}

/// The releases in host order, from the reply to [`releases_url`].
pub fn fetch_releases(reply: Result<Reply<Vec<Release>>, String>) -> (r: Result<
    Vec<Release>,
    FetchError,
>)
    ensures
        r == reply_outcome(reply),
{
    check_reply(reply)
}

/// The tags in host order, from the reply to [`tags_url`]; an empty list is no error.
pub fn fetch_tags(reply: Result<Reply<Vec<Tag>>, String>) -> (r: Result<Vec<Tag>, FetchError>)
    ensures
        r == reply_outcome(reply),
{
    check_reply(reply)
}

/// The first tag named `tag`, from the reply to [`tags_url`].
pub fn fetch_tag(reply: Result<Reply<Vec<Tag>>, String>, tag: &str) -> (r: Result<
    Tag,
    FetchError,
>)
    ensures
        reply_outcome(reply) matches Err(e) ==> r == Err::<Tag, FetchError>(e),
        reply_outcome(reply) matches Ok(tags) ==> (if find_tag(tags@, tag@) >= 0 {
            r == Ok::<Tag, FetchError>(tags@[find_tag(tags@, tag@)])
        } else {
            r matches Err(FetchError::TagNotFound(n)) && n@ == tag@
        }),
{
    match check_reply(reply) {
        Err(e) => Err(e),
        Ok(tags) => {
            let name = String::from_str(tag);
            let j = crate::matcher::position_of_tag(&tags, &name);
            if j < tags.len() {
                Ok(tags[j].clone())
            } else {
                Err(FetchError::TagNotFound(name))
            }
        },
    }
}

/// A share of some work: `done` out of `total`.
#[derive(Clone, Copy, Debug, PartialEq, Eq, Structural)]
pub struct Ratio {
    pub done: u64,
    pub total: u64,
}

/// The progress a download reports once `received` bytes have come in: a ratio only
/// when the content length is known and not zero.
pub open spec fn download_ratio(total: Option<u64>, received: nat) -> Option<Ratio> {
    match total {
        Some(t) if t > 0 => Some(Ratio { done: received as u64, total: t }),
        _ => None,
    }
}

/// The bytes of a streamed download so far, and its announced content length.
pub struct DownloadProgress {
    received: Vec<u8>,
    total: Option<u64>,
}

impl DownloadProgress {
    /// The bytes received so far.
    pub closed spec fn bytes(&self) -> Seq<u8> {
        self.received@
    }

    /// The content length the host announced.
    pub closed spec fn content_length(&self) -> Option<u64> {
        self.total
    }

    /// A download that has received nothing yet.
    pub fn new(content_length: Option<u64>) -> (r: Self)
        ensures
            r.bytes() == Seq::<u8>::empty(),
            r.content_length() == content_length,
    {
        DownloadProgress { received: Vec::new(), total: content_length }
    }

    /// Takes the next chunk of the body; gives the progress to report, if any.
    pub fn on_chunk(&mut self, chunk: &[u8]) -> (r: Option<Ratio>)
        ensures
            final(self).bytes() == old(self).bytes() + chunk@,
            final(self).content_length() == old(self).content_length(),
            r == download_ratio(old(self).content_length(), final(self).bytes().len()),
    {
        let ghost before = self.received@;
        self.received.extend_from_slice(chunk);
        assert(self.received@ =~= before + chunk@);
        let n = self.received.len() as u64;
        match self.total {
            Some(t) => if t > 0 {
                Some(Ratio { done: n, total: t })
            } else {
                None
            },
            None => None,
        }
    }

    /// The whole body.
    pub fn finish(self) -> (r: Vec<u8>)
        ensures
            r@ == self.bytes(),
    {
        self.received
    }
}

/// A download whose content length is known and whose chunks add up to it ends on a
/// report of all of it; one whose length is unknown reports nothing.
pub proof fn lemma_download_ends_complete(total: Option<u64>, received: nat)
    ensures
        total is Some && total->0 > 0 && received == total->0 ==> download_ratio(total, received)
            == Some(Ratio { done: total->0, total: total->0 }),
        total is None ==> download_ratio(total, received) is None,
{
}

} // verus!
