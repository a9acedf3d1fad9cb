//! The provider-aware issue-URL builder: given a repository's base URL and a
//! formatted report body, produces the provider's "new issue" URL, with the
//! provider-specific path suffix and query scheme.

use vstd::prelude::*;
use vstd::string::{StrSliceExecFns, StringExecFns};

use crate::encoding::{percent_decode, percent_encode, query_encoding_of};
use crate::report::{format_report_body, report_body, CargoPanicMetadata};

verus! {

/// A repository's base URL, held as its plain parts: `origin` is the scheme
/// and authority (`https://github.com`), `path` the path component
/// (`/acme/widget`), and `query` and `fragment` whatever the base URL
/// carried after them.  Building an issue URL replaces the path and the
/// query and leaves everything else unchanged.
#[derive(Clone, Debug)]
pub struct RepoUrl {
    pub origin: String,
    pub path: String,
    pub query: Option<String>,
    pub fragment: Option<String>,
}

/// The finished issue-creation URL, as its plain parts: the origin and
/// fragment of the base URL, the issue-form path, and the query holding the
/// percent-encoded report body.
#[derive(Clone, Debug)]
pub struct IssueUrl {
    pub origin: String,
    pub path: String,
    pub query: String,
    pub fragment: Option<String>,
}

/// Describes supported repository providers.
#[derive(Clone, Debug)]
pub enum RepositoryProvider {
    GitHub(RepoUrl),
    GitLab(RepoUrl),
}

/// The path of an issue-creation URL: the base URL's path with the literal
/// suffix appended.
pub open spec fn issue_path(base_path: Seq<char>) -> Seq<char> {
    base_path + "/issues/new"@
}

/// GitHub's query scheme: the encoded body under the `body` key, and the
/// fixed `labels=bug` parameter.
pub open spec fn github_query(body: Seq<char>) -> Seq<char> {
    "body="@ + query_encoding_of(body) + "&labels=bug"@
}

/// GitLab's query scheme: the encoded body under the `issue[description]`
/// key, and the fixed `issuable_template=bug` parameter.
pub open spec fn gitlab_query(body: Seq<char>) -> Seq<char> {
    "issue[description]="@ + query_encoding_of(body) + "&issuable_template=bug"@
}

/// The issue path keeps the whole base path as its prefix and appends the
/// literal suffix `/issues/new`, whether or not the base path ends in a
/// slash.
pub proof fn lemma_issue_path_shape(base_path: Seq<char>)
    ensures
        issue_path(base_path).len() == base_path.len() + 11,
        issue_path(base_path).subrange(0, base_path.len() as int) == base_path,
        issue_path(base_path).subrange(
            base_path.len() as int,
            issue_path(base_path).len() as int,
        ) == "/issues/new"@,
{
    reveal_strlit("/issues/new");
    assert(issue_path(base_path).subrange(0, base_path.len() as int) =~= base_path);
    assert(issue_path(base_path).subrange(
        base_path.len() as int,
        issue_path(base_path).len() as int,
    ) =~= "/issues/new"@);
}

/// A GitHub query string starts with `body=` and ends with the suffix
/// `&labels=bug`; the encoded body stands between them.
pub proof fn lemma_github_query_shape(body: Seq<char>)
    ensures
        ({
            let q = github_query(body);
            q.len() == 16 + query_encoding_of(body).len() && q.subrange(0, 5) == "body="@
                && q.subrange(q.len() - 11, q.len() as int) == "&labels=bug"@ && q.subrange(
                5,
                q.len() - 11,
            ) == query_encoding_of(body)
        }),
{
    reveal_strlit("body=");
    reveal_strlit("&labels=bug");
    let q = github_query(body);
    assert(q.subrange(0, 5) =~= "body="@);
    assert(q.subrange(q.len() - 11, q.len() as int) =~= "&labels=bug"@);
    assert(q.subrange(5, q.len() - 11) =~= query_encoding_of(body));
}

/// A GitLab query string starts with `issue[description]=` and ends with
/// the suffix `&issuable_template=bug`; the encoded body stands between
/// them.
pub proof fn lemma_gitlab_query_shape(body: Seq<char>)
    ensures
        ({
            let q = gitlab_query(body);
            q.len() == 41 + query_encoding_of(body).len() && q.subrange(0, 19)
                == "issue[description]="@ && q.subrange(q.len() - 22, q.len() as int)
                == "&issuable_template=bug"@ && q.subrange(19, q.len() - 22)
                == query_encoding_of(body)
        }),
{
    reveal_strlit("issue[description]=");
    reveal_strlit("&issuable_template=bug");
    let q = gitlab_query(body);
    assert(q.subrange(0, 19) =~= "issue[description]="@);
    assert(q.subrange(q.len() - 22, q.len() as int) =~= "&issuable_template=bug"@);
    assert(q.subrange(19, q.len() - 22) =~= query_encoding_of(body));
}

/// The single serialization of an issue URL: origin, path, `?`, query, and
/// the fragment after `#` where the base URL had one.
pub open spec fn issue_url_serialization(u: IssueUrl) -> Seq<char> {
    u.origin@ + u.path@ + "?"@ + u.query@ + match u.fragment {
        Some(f) => "#"@ + f@,
        None => Seq::<char>::empty(),
    }
}

impl IssueUrl {
    /// Writes the URL out as a single string, ready to be opened.
    pub fn serialization(&self) -> (s: String)
        ensures
            s@ == issue_url_serialization(*self),
    {
        let mut s = self.origin.clone();
        s.append(self.path.as_str());
        s.append("?");
        s.append(self.query.as_str());
        match &self.fragment {
            Some(f) => {
                s.append("#");
                s.append(f.as_str());
            },
            None => {},
        }
        proof {
            assert(s@ =~= issue_url_serialization(*self));
        }
        s
    }
}

impl RepositoryProvider {
    /// Returns the full URL required to file an issue in the repository of
    /// the client crate.
    ///
    /// Most Git providers allow issue creation through query params.  The
    /// caller supplies the crash details and the ambient facts (operating
    /// system, architecture, capture timestamp); the base URL's origin and
    /// fragment are kept, its path gains the issue-form suffix, and its
    /// query is replaced by the provider's scheme around the encoded body.
    pub fn build_issue_url(
        &self,
        crash_details: &str,
        os: &str,
        arch: &str,
        timestamp: &str,
        metadata: &CargoPanicMetadata,
    ) -> (r: IssueUrl)
        ensures
            ({
                let body = report_body(
                    crash_details@,
                    os@,
                    arch@,
                    timestamp@,
                    metadata.version@,
                    metadata.pkg_name@,
                    metadata.crate_name@,
                );
                match self {
                    RepositoryProvider::GitHub(base) => r.origin@ == base.origin@ && r.path@
                        == issue_path(base.path@) && r.query@ == github_query(body) && r.fragment
                        == base.fragment,
                    RepositoryProvider::GitLab(base) => r.origin@ == base.origin@ && r.path@
                        == issue_path(base.path@) && r.query@ == gitlab_query(body) && r.fragment
                        == base.fragment,
                }
            }),
    {
        let body = format_report_body(crash_details, os, arch, timestamp, metadata);
        let encoded = percent_encode(body.as_str());
        match self {
            RepositoryProvider::GitHub(base) => {
                let mut path = base.path.clone();
                path.append("/issues/new");
                let mut query = String::new();
                query.append("body=");
                query.append(encoded.as_str());
                query.append("&labels=bug");
                IssueUrl {
                    origin: base.origin.clone(),
                    path,
                    query,
                    fragment: clone_fragment(&base.fragment),
                }
            },
            RepositoryProvider::GitLab(base) => {
                let mut path = base.path.clone();
                path.append("/issues/new");
                let mut query = String::new();
                query.append("issue[description]=");
                query.append(encoded.as_str());
                query.append("&issuable_template=bug");
                IssueUrl {
                    origin: base.origin.clone(),
                    path,
                    query,
                    fragment: clone_fragment(&base.fragment),
                }
            },
        }
    }
}

/// Copies a base URL's fragment into the output URL.
fn clone_fragment(fragment: &Option<String>) -> (r: Option<String>)
    ensures
        r == *fragment,
{
    match fragment {
        Some(f) => Some(f.clone()),
        None => None,
    }
}

/// Compares two string slices by their characters.
fn str_eq(a: &str, b: &str) -> (r: bool)
    ensures
        r == (a@ == b@),
{
    let sa = String::from_str(a);
    let sb = String::from_str(b);
    sa == sb
}

/// Recovers the report body out of a query string of the shape that the
/// GitHub variant of `build_issue_url` produces: percent-decoding the value
/// of the `body` parameter gives back the body that was encoded into it.
pub fn recover_github_body(query: &str) -> (r: Option<String>)
    ensures
        forall|b: Seq<char>| query@ == github_query(b) ==> (r matches Some(d) && d@ == b),
{
    recover_encoded_body(query, "body=", "&labels=bug")
}

/// Recovers the report body out of a query string of the shape that the
/// GitLab variant of `build_issue_url` produces: percent-decoding the value
/// of the `issue[description]` parameter gives back the body that was
/// encoded into it.
pub fn recover_gitlab_body(query: &str) -> (r: Option<String>)
    ensures
        forall|b: Seq<char>| query@ == gitlab_query(b) ==> (r matches Some(d) && d@ == b),
{
    recover_encoded_body(query, "issue[description]=", "&issuable_template=bug")
}

/// Strips a fixed prefix and suffix off a query string and percent-decodes
/// what stands between them.
fn recover_encoded_body(query: &str, prefix: &str, suffix: &str) -> (r: Option<String>)
    ensures
        forall|b: Seq<char>|
            query@ == prefix@ + query_encoding_of(b) + suffix@ ==> (r matches Some(d) && d@ == b),
{
    let n = query.unicode_len();
    let plen = prefix.unicode_len();
    let slen = suffix.unicode_len();
    if n < plen || n - plen < slen {
        proof {
            assert forall|b: Seq<char>|
                query@ == prefix@ + query_encoding_of(b) + suffix@ implies false by {
                assert(query@.len() >= prefix@.len() + suffix@.len());
            }
        }
        return None;
    }
    let head = query.substring_char(0, plen);
    if !str_eq(head, prefix) {
        proof {
            assert forall|b: Seq<char>|
                query@ == prefix@ + query_encoding_of(b) + suffix@ implies false by {
                assert(query@.subrange(0, plen as int) =~= prefix@);
            }
        }
        return None;
    }
    let tail = query.substring_char(n - slen, n);
    if !str_eq(tail, suffix) {
        proof {
            assert forall|b: Seq<char>|
                query@ == prefix@ + query_encoding_of(b) + suffix@ implies false by {
                assert(query@.subrange((n - slen) as int, n as int) =~= suffix@);
            }
        }
        return None;
    }
    let middle = query.substring_char(plen, n - slen);
    let decoded = percent_decode(middle);
    proof {
        assert forall|b: Seq<char>|
            query@ == prefix@ + query_encoding_of(b) + suffix@ implies decoded matches Some(d)
            && d@ == b by {
            assert(middle@ =~= query_encoding_of(b));
        }
    }
    decoded
}

} // verus!
