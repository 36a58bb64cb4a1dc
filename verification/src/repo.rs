//! Checked repo entries: a supported git remote, a non-empty revision and name, and a
//! location relative to the workspace's top directory.
use vstd::prelude::*;
use crate::manifest;
use crate::workspace::utils::{is_absolute_path, path_is_absolute, plainly_relative};

verus! {

/// The transport of a git URL.
pub enum UrlScheme {
    File,
    Git,
    Ssh,
    Http,
    Https,
    Ext(String),
}

/// The transport of a git URL, as a mathematical value.
pub enum SchemeView {
    File,
    Git,
    Ssh,
    Http,
    Https,
    Ext(Seq<char>),
}

impl View for UrlScheme {
    type V = SchemeView;

    open spec fn view(&self) -> SchemeView {
        match self {
            UrlScheme::File => SchemeView::File,
            UrlScheme::Git => SchemeView::Git,
            UrlScheme::Ssh => SchemeView::Ssh,
            UrlScheme::Http => SchemeView::Http,
            UrlScheme::Https => SchemeView::Https,
            UrlScheme::Ext(s) => SchemeView::Ext(s@),
        }
    }
}

/// The parts of a git URL that this library reads: its scheme and its path.
pub struct ParsedUrl {
    pub scheme: UrlScheme,
    pub path: String,
}

/// What `gix_url::parse` makes of a text: its scheme and its path (the path decoded as
/// UTF-8, invalid bytes replaced), or, where it fails, the message of its error.
pub uninterp spec fn git_url(raw: Seq<char>) -> Result<(SchemeView, Seq<char>), Seq<char>>;

/// Calls `gix_url::parse` on the bytes of `raw`, and gives the message (`Display`) of its
/// error where it fails. Trusted: the result is `git_url` of the text; on the empty text it
/// fails (the source parses an empty input as a local path, which it rejects for having no
/// path).
#[verifier::external_body]
fn parse_git_url(raw: &str) -> (r: Result<ParsedUrl, String>)
    ensures
        match git_url(raw@) {
            Ok(p) => r matches Ok(u) && p == (u.scheme@, u.path@),
            Err(m) => r matches Err(t) && t@ == m,
        },
        raw@.len() == 0 ==> r is Err,
{
    let url = gix_url::parse(raw.as_bytes().into()).map_err(|e| e.to_string())?;
    let scheme = match url.scheme {
        gix_url::Scheme::File => UrlScheme::File,
        gix_url::Scheme::Git => UrlScheme::Git,
        gix_url::Scheme::Ssh => UrlScheme::Ssh,
        gix_url::Scheme::Http => UrlScheme::Http,
        gix_url::Scheme::Https => UrlScheme::Https,
        gix_url::Scheme::Ext(name) => UrlScheme::Ext(name),
    };
    Ok(ParsedUrl { scheme, path: url.path.to_string() })
}

/// Why a repo entry was refused.
pub enum RepoError {
    /// The remote is not a git URL; the text says why.
    InvalidRemote(String),
    /// The remote's transport is neither HTTP(S) nor SSH.
    UnsupportedScheme(UrlScheme),
    /// No repo name could be read off the remote's path.
    NoRepoName(String),
    EmptyRev,
    EmptyName,
    EmptyLocation,
    AbsoluteLocation,
}

/// The name of a transport, as git writes it in a URL (`Ext` carries its own).
pub open spec fn scheme_text(s: SchemeView) -> Seq<char> {
    match s {
        SchemeView::File => "file"@,
        SchemeView::Git => "git"@,
        SchemeView::Ssh => "ssh"@,
        SchemeView::Http => "http"@,
        SchemeView::Https => "https"@,
        SchemeView::Ext(name) => name,
    }
}

impl UrlScheme {
    /// The transport's name, as git writes it in a URL.
    pub fn as_str(&self) -> (r: &str)
        ensures
            r@ == scheme_text(self@),
    {
        match self {
            UrlScheme::File => "file",
            UrlScheme::Git => "git",
            UrlScheme::Ssh => "ssh",
            UrlScheme::Http => "http",
            UrlScheme::Https => "https",
            UrlScheme::Ext(name) => name.as_str(),
        }
    }
}

/// The message of a refused repo entry.
pub open spec fn repo_error_text(e: RepoError) -> Seq<char> {
    match e {
        RepoError::InvalidRemote(m) => m@,
        RepoError::UnsupportedScheme(s) => "Unsupported git scheme: "@ + scheme_text(s@),
        RepoError::NoRepoName(r) => "Could not derive repo name from remote: "@ + r@,
        RepoError::EmptyRev => "Rev length is 0"@,
        RepoError::EmptyName => "Name length is 0"@,
        RepoError::EmptyLocation => "Location length is 0"@,
        RepoError::AbsoluteLocation => "Location must be relative to the Chord workspace topdir"@,
    }
}

impl RepoError {
    /// The error's message.
    pub fn message(&self) -> (r: String)
        ensures
            r@ == repo_error_text(*self),
    {
        match self {
            RepoError::InvalidRemote(m) => m.clone(),
            RepoError::UnsupportedScheme(s) => {
                let mut out = "Unsupported git scheme: ".to_owned();
                out.append(s.as_str());
                out
            },
            RepoError::NoRepoName(r) => {
                let mut out = "Could not derive repo name from remote: ".to_owned();
                out.append(r.as_str());
                out
            },
            RepoError::EmptyRev => "Rev length is 0".to_owned(),
            RepoError::EmptyName => "Name length is 0".to_owned(),
            RepoError::EmptyLocation => "Location length is 0".to_owned(),
            RepoError::AbsoluteLocation => "Location must be relative to the Chord workspace topdir".to_owned(),
        }
    }
}

/// The kinds of [`RepoError`], without what they carry.
pub enum RepoFault {
    InvalidRemote,
    UnsupportedScheme,
    NoRepoName,
    EmptyRev,
    EmptyName,
    EmptyLocation,
    AbsoluteLocation,
}

/// The kind of an error.
pub open spec fn fault_of(e: RepoError) -> RepoFault {
    match e {
        RepoError::InvalidRemote(_) => RepoFault::InvalidRemote,
        RepoError::UnsupportedScheme(_) => RepoFault::UnsupportedScheme,
        RepoError::NoRepoName(_) => RepoFault::NoRepoName,
        RepoError::EmptyRev => RepoFault::EmptyRev,
        RepoError::EmptyName => RepoFault::EmptyName,
        RepoError::EmptyLocation => RepoFault::EmptyLocation,
        RepoError::AbsoluteLocation => RepoFault::AbsoluteLocation,
    }
}

/// The transports that a remote may use: HTTP, HTTPS and SSH.
pub open spec fn scheme_supported(s: SchemeView) -> bool {
    s is Http || s is Https || s is Ssh
}

/// Whether `raw` is an acceptable remote: a git URL with a supported transport.
pub open spec fn remote_accepts(raw: Seq<char>) -> bool {
    git_url(raw) matches Ok(p) && scheme_supported(p.0)
}

/// `s` without all the `/` at its end.
pub open spec fn trim_slashes(s: Seq<char>) -> Seq<char>
    decreases s.len(),
{
    if s.len() > 0 && s.last() == '/' {
        trim_slashes(s.drop_last())
    } else {
        s
    }
}

/// Whether `s` ends in `.git`.
pub open spec fn has_git_suffix(s: Seq<char>) -> bool {
    s.len() >= 4 && s.subrange(s.len() - 4, s.len() as int) == seq!['.', 'g', 'i', 't']
}

/// `s` without all the `.git` at its end.
pub open spec fn trim_git(s: Seq<char>) -> Seq<char>
    decreases s.len(),
{
    if has_git_suffix(s) {
        trim_git(s.subrange(0, s.len() - 4))
    } else {
        s
    }
}

/// What follows the last `/` of `s` (all of `s` where it has none).
pub open spec fn last_segment(s: Seq<char>) -> Seq<char>
    decreases s.len(),
{
    if s.len() == 0 || s.last() == '/' {
        Seq::empty()
    } else {
        last_segment(s.drop_last()).push(s.last())
    }
}

/// The repo name that a URL path gives: its last segment, once the trailing `/` and then
/// the trailing `.git` are cut off.
pub open spec fn name_of_path(p: Seq<char>) -> Seq<char> {
    last_segment(trim_git(trim_slashes(p)))
}

/// What follows a `/` that no other `/` follows is the last segment.
proof fn lemma_last_segment_after_slash(q: Seq<char>, n: Seq<char>)
    requires
        forall|i: int| 0 <= i < n.len() ==> n[i] != '/',
    ensures
        last_segment(q.push('/') + n) == n,
    decreases n.len(),
{
    let s = q.push('/') + n;
    if n.len() == 0 {
        assert(s =~= q.push('/'));
    } else {
        lemma_last_segment_after_slash(q, n.drop_last());
        assert(s.drop_last() =~= q.push('/') + n.drop_last());
        assert(s.last() == n.last());
        assert(n.drop_last().push(n.last()) =~= n);
    }
}

/// A last segment holds no `/`.
proof fn lemma_last_segment_has_no_slash(s: Seq<char>)
    ensures
        forall|i: int| 0 <= i < last_segment(s).len() ==> last_segment(s)[i] != '/',
    decreases s.len(),
{
    if s.len() > 0 && s.last() != '/' {
        lemma_last_segment_has_no_slash(s.drop_last());
        let t = last_segment(s.drop_last());
        assert forall|i: int| 0 <= i < t.push(s.last()).len() implies t.push(s.last())[i] != '/' by {
            if i < t.len() {
                assert(t.push(s.last())[i] == t[i]);
            }
        }
    }
}

/// The repo name of a URL path is what follows its last `/`, once a trailing `/` or one
/// `.git` is cut off: the name of `.../org/chord`, of `.../org/chord/` and of
/// `.../org/chord.git` is `chord`. A name never holds a `/`.
pub proof fn law_repo_name_is_last_segment(q: Seq<char>, n: Seq<char>, p: Seq<char>)
    requires
        n.len() > 0,
        forall|i: int| 0 <= i < n.len() ==> n[i] != '/',
        !has_git_suffix(n),
    ensures
        name_of_path(q.push('/') + n) == n,
        name_of_path((q.push('/') + n).push('/')) == n,
        name_of_path(q.push('/') + n + seq!['.', 'g', 'i', 't']) == n,
        forall|i: int| 0 <= i < name_of_path(p).len() ==> name_of_path(p)[i] != '/',
{
    lemma_last_segment_has_no_slash(trim_git(trim_slashes(p)));
    let s = q.push('/') + n;
    assert(s.last() == n.last());
    assert(trim_slashes(s) == s);
    assert(!has_git_suffix(s)) by {
        if has_git_suffix(s) {
            let tail = s.subrange(s.len() - 4, s.len() as int);
            if n.len() >= 4 {
                assert(tail =~= n.subrange(n.len() - 4, n.len() as int));
            } else {
                let k = 3 - n.len();
                assert(tail[k] == s[q.len() as int]);
                assert(s[q.len() as int] == '/');
            }
        }
    }
    assert(trim_git(s) == s);
    lemma_last_segment_after_slash(q, n);
    let t = s.push('/');
    assert(t.drop_last() =~= s);
    assert(trim_slashes(t) == trim_slashes(s));
    let g = s + seq!['.', 'g', 'i', 't'];
    assert(g.last() == 't');
    assert(trim_slashes(g) == g);
    assert(g.subrange(g.len() - 4, g.len() as int) =~= seq!['.', 'g', 'i', 't']);
    assert(g.subrange(0, g.len() - 4) =~= s);
    assert(trim_git(g) == trim_git(s));
}

/// The repo name that a remote gives, by the path of its URL.
pub open spec fn derived_name(raw: Seq<char>) -> Seq<char> {
    name_of_path(git_url(raw)->Ok_0.1)
}

/// The first reason, in the order the fields are examined, why a manifest entry is refused.
pub open spec fn repo_fault(raw: manifest::Repo) -> Option<RepoFault> {
    if git_url(raw.remote@) is Err {
        Some(RepoFault::InvalidRemote)
    } else if !scheme_supported(git_url(raw.remote@)->Ok_0.0) {
        Some(RepoFault::UnsupportedScheme)
    } else if raw.rev matches Some(v) && v@.len() == 0 {
        Some(RepoFault::EmptyRev)
    } else if raw.location matches Some(v) && v@.len() == 0 {
        Some(RepoFault::EmptyLocation)
    } else if raw.location matches Some(v) && path_is_absolute(v@) {
        Some(RepoFault::AbsoluteLocation)
    } else if raw.name matches Some(v) && v@.len() == 0 {
        Some(RepoFault::EmptyName)
    } else if raw.name is None && derived_name(raw.remote@).len() == 0 {
        Some(RepoFault::NoRepoName)
    } else {
        None
    }
}

/// A manifest entry is accepted exactly when each of its fields is: the remote is a git
/// URL of a supported transport; a revision, where given, is not empty; a location, where
/// given, is neither empty nor absolute; and the name, where given, is not empty, else the
/// remote gives one. Where it is refused, the fault reported is one of a field that is wrong.
pub proof fn law_entry_accepted_when_every_field_is(raw: manifest::Repo)
    ensures
        repo_fault(raw) is None <==> {
            &&& remote_accepts(raw.remote@)
            &&& raw.rev matches Some(v) ==> v@.len() > 0
            &&& raw.location matches Some(v) ==> v@.len() > 0 && !path_is_absolute(v@)
            &&& match raw.name {
                Some(v) => v@.len() > 0,
                None => derived_name(raw.remote@).len() > 0,
            }
        },
        repo_fault(raw) == Some(RepoFault::InvalidRemote) ==> git_url(raw.remote@) is Err,
        repo_fault(raw) == Some(RepoFault::UnsupportedScheme) ==> (git_url(raw.remote@) matches Ok(p)
            && !scheme_supported(p.0)),
        repo_fault(raw) == Some(RepoFault::EmptyRev) ==> (raw.rev matches Some(v) && v@.len() == 0),
        repo_fault(raw) == Some(RepoFault::EmptyLocation) ==> (raw.location matches Some(v) && v@.len() == 0),
        repo_fault(raw) == Some(RepoFault::AbsoluteLocation) ==> (raw.location matches Some(v) && path_is_absolute(v@)),
        repo_fault(raw) == Some(RepoFault::EmptyName) ==> (raw.name matches Some(v) && v@.len() == 0),
        repo_fault(raw) == Some(RepoFault::NoRepoName) ==> (raw.name is None && derived_name(raw.remote@).len() == 0),
{
}

/// Newtype wrapper around a string that represents a valid git repo url.
pub struct Remote(String);

impl View for Remote {
    type V = Seq<char>;

    closed spec fn view(&self) -> Seq<char> {
        self.0@
    }
}

impl Remote {
    #[verifier::type_invariant]
    closed spec fn inv(self) -> bool {
        remote_accepts(self.0@)
    }

    /// Accepts `raw` as a remote where it parses as a git URL whose transport is HTTP,
    /// HTTPS or SSH.
    pub fn try_from(raw: String) -> (r: Result<Remote, RepoError>)
        ensures
            r is Ok <==> remote_accepts(raw@),
            raw@.len() == 0 ==> r is Err,
            r matches Ok(rem) ==> rem@ == raw@,
            r matches Err(e) ==> match git_url(raw@) {
                Err(m) => e matches RepoError::InvalidRemote(t) && t@ == m,
                Ok(p) => e matches RepoError::UnsupportedScheme(s) && s@ == p.0,
            },
    {
        match parse_git_url(raw.as_str()) {
            Err(m) => Err(RepoError::InvalidRemote(m)),
            Ok(parsed) => match parsed.scheme {
                UrlScheme::Http | UrlScheme::Https | UrlScheme::Ssh => Ok(Remote(raw)),
                other => Err(RepoError::UnsupportedScheme(other)),
            },
        }
    }

    /// The remote's text.
    pub fn as_str(&self) -> (r: &str)
        ensures
            r@ == self@,
    {
        self.0.as_str()
    }

    /// The name of the repo, read off the remote's path: its last segment once the trailing
    /// `/` and `.git` are cut off. Fails where that leaves nothing.
    pub fn repo_name(&self) -> (r: Result<String, RepoError>)
        ensures
            r is Ok <==> derived_name(self@).len() > 0,
            r matches Ok(n) ==> n@ == derived_name(self@),
            r matches Err(e) ==> e matches RepoError::NoRepoName(s) && s@ == self@,
    {
        proof {
            use_type_invariant(self);
        }
        match parse_git_url(self.0.as_str()) {
            Err(_) => Err(RepoError::NoRepoName(self.0.clone())),
            Ok(parsed) => {
                let name = name_from_path(parsed.path.as_str());
                if name.as_str().is_empty() {
                    Err(RepoError::NoRepoName(self.0.clone()))
                } else {
                    Ok(name)
                }
            },
        }
    }
}

/// The repo name that a URL path gives (see [`name_of_path`]).
pub fn name_from_path(path: &str) -> (r: String)
    ensures
        r@ == name_of_path(path@),
{
    let n = path.unicode_len();
    let mut end: usize = n;
    assert(path@.subrange(0, n as int) =~= path@);
    while end > 0 && path.get_char(end - 1) == '/'
        invariant
            n == path@.len(),
            end <= n,
            trim_slashes(path@) == trim_slashes(path@.subrange(0, end as int)),
        decreases end,
    {
        assert(path@.subrange(0, end as int).drop_last() =~= path@.subrange(0, end - 1));
        end = end - 1;
    }
    assert(trim_slashes(path@) == path@.subrange(0, end as int));
    let ghost cut = path@.subrange(0, end as int);
    while end >= 4 && path.get_char(end - 4) == '.' && path.get_char(end - 3) == 'g'
        && path.get_char(end - 2) == 'i' && path.get_char(end - 1) == 't'
        invariant
            n == path@.len(),
            end <= n,
            trim_git(cut) == trim_git(path@.subrange(0, end as int)),
        decreases end,
    {
        let ghost s = path@.subrange(0, end as int);
        assert(s.subrange(s.len() - 4, s.len() as int) =~= seq!['.', 'g', 'i', 't']);
        assert(s.subrange(0, s.len() - 4) =~= path@.subrange(0, end - 4));
        end = end - 4;
    }
    proof {
        let s = path@.subrange(0, end as int);
        if has_git_suffix(s) {
            assert(s.subrange(s.len() - 4, s.len() as int)[0] == s[s.len() - 4]);
            assert(s.subrange(s.len() - 4, s.len() as int)[1] == s[s.len() - 3]);
            assert(s.subrange(s.len() - 4, s.len() as int)[2] == s[s.len() - 2]);
            assert(s.subrange(s.len() - 4, s.len() as int)[3] == s[s.len() - 1]);
        }
        assert(trim_git(s) == s);
    }
    let mut start: usize = end;
    while start > 0 && path.get_char(start - 1) != '/'
        invariant
            n == path@.len(),
            start <= end <= n,
            last_segment(path@.subrange(0, end as int)) == last_segment(
                path@.subrange(0, start as int),
            ) + path@.subrange(start as int, end as int),
        decreases start,
    {
        let ghost s = path@.subrange(0, start as int);
        assert(s.drop_last() =~= path@.subrange(0, start - 1));
        assert(last_segment(s) == last_segment(s.drop_last()).push(s.last()));
        assert(last_segment(s.drop_last()).push(s.last()) + path@.subrange(start as int, end as int)
            =~= last_segment(s.drop_last()) + path@.subrange(start - 1, end as int));
        start = start - 1;
    }
    assert(last_segment(path@.subrange(0, start as int)) =~= Seq::<char>::empty());
    assert(Seq::<char>::empty() + path@.subrange(start as int, end as int) =~= path@.subrange(
        start as int,
        end as int,
    ));
    let seg = path.substring_char(start, end);
    seg.to_owned()
}

/// Newtype wrapper around a string that represents a valid git revision: any non-empty text,
/// since it may name a hash, a tag or a branch.
pub struct Rev(String);

impl View for Rev {
    type V = Seq<char>;

    closed spec fn view(&self) -> Seq<char> {
        self.0@
    }
}

impl Rev {
    #[verifier::type_invariant]
    closed spec fn inv(self) -> bool {
        self.0@.len() > 0
    }

    /// Accepts any non-empty revision.
    pub fn try_from(raw: String) -> (r: Result<Rev, RepoError>)
        ensures
            r is Ok <==> raw@.len() > 0,
            r matches Ok(v) ==> v@ == raw@,
            r matches Err(e) ==> e is EmptyRev,
    {
        if raw.as_str().is_empty() {
            Err(RepoError::EmptyRev)
        } else {
            Ok(Rev(raw))
        }
    }

    /// The revision's text.
    pub fn as_str(&self) -> (r: &str)
        ensures
            r@ == self@,
    {
        self.0.as_str()
    }
}

/// Newtype wrapper around a string that represents a valid repo name: any non-empty text.
pub struct Name(String);

impl View for Name {
    type V = Seq<char>;

    closed spec fn view(&self) -> Seq<char> {
        self.0@
    }
}

impl Name {
    #[verifier::type_invariant]
    closed spec fn inv(self) -> bool {
        self.0@.len() > 0
    }

    /// Accepts any non-empty name.
    pub fn try_from(raw: String) -> (r: Result<Name, RepoError>)
        ensures
            r is Ok <==> raw@.len() > 0,
            r matches Ok(v) ==> v@ == raw@,
            r matches Err(e) ==> e is EmptyName,
    {
        if raw.as_str().is_empty() {
            Err(RepoError::EmptyName)
        } else {
            Ok(Name(raw))
        }
    }

    /// The name's text.
    pub fn as_str(&self) -> (r: &str)
        ensures
            r@ == self@,
    {
        self.0.as_str()
    }
}

/// Newtype wrapper around a string that represents a valid repo location: a non-empty path
/// relative to the workspace's top directory.
pub struct Location(String);

impl View for Location {
    type V = Seq<char>;

    closed spec fn view(&self) -> Seq<char> {
        self.0@
    }
}

impl Location {
    #[verifier::type_invariant]
    closed spec fn inv(self) -> bool {
        self.0@.len() > 0 && !path_is_absolute(self.0@)
    }

    /// Accepts a non-empty path that is not absolute.
    pub fn try_from(raw: String) -> (r: Result<Location, RepoError>)
        ensures
            r is Ok <==> raw@.len() > 0 && !path_is_absolute(raw@),
            raw@.len() > 0 && plainly_relative(raw@) ==> r is Ok,
            r matches Ok(v) ==> v@ == raw@,
            r matches Err(e) ==> if raw@.len() == 0 {
                e is EmptyLocation
            } else {
                e is AbsoluteLocation
            },
    {
        if raw.as_str().is_empty() {
            return Err(RepoError::EmptyLocation);
        }
        if is_absolute_path(raw.as_str()) {
            return Err(RepoError::AbsoluteLocation);
        }
        Ok(Location(raw))
    }

    /// The location's text.
    pub fn as_str(&self) -> (r: &str)
        ensures
            r@ == self@,
    {
        self.0.as_str()
    }
}

/// Represents a complete repo: every field checked, and the missing ones filled in.
pub struct Repo {
    pub remote: Remote,
    pub rev: Rev,
    pub name: Name,
    pub location: Location,
}

impl Repo {
    /// Checks a manifest entry field by field, in this order: remote, revision, location,
    /// name. A missing revision becomes `main`, a missing location `.`, and a missing name
    /// the one that the remote gives. The first check that fails gives the error.
    pub fn try_from(raw: manifest::Repo) -> (r: Result<Repo, RepoError>)
        ensures
            r is Ok <==> repo_fault(raw) is None,
            r matches Err(e) ==> repo_fault(raw) == Some(fault_of(e)),
            r matches Ok(repo) ==> {
                &&& repo.remote@ == raw.remote@
                &&& repo.rev@ == match raw.rev {
                    Some(v) => v@,
                    None => "main"@,
                }
                &&& repo.location@ == match raw.location {
                    Some(v) => v@,
                    None => "."@,
                }
                &&& repo.name@ == match raw.name {
                    Some(v) => v@,
                    None => derived_name(raw.remote@),
                }
            },
    {
        let ghost g = raw;
        let remote = match Remote::try_from(raw.remote) {
            Ok(v) => v,
            Err(e) => return Err(e),
        };
        let rev_text = match raw.rev {
            Some(v) => v,
            None => "main".to_owned(),
        };
        proof {
            reveal_strlit("main");
        }
        let rev = match Rev::try_from(rev_text) {
            Ok(v) => v,
            Err(e) => return Err(e),
        };
        let location_text = match raw.location {
            Some(v) => v,
            None => ".".to_owned(),
        };
        proof {
            reveal_strlit(".");
            assert("."@.len() == 1 && "."@[0] == '.');
            assert(raw.location is None ==> location_text@ == "."@);
        }
        let location = match Location::try_from(location_text) {
            Ok(v) => v,
            Err(e) => return Err(e),
        };
        let name = match raw.name {
            Some(v) => match Name::try_from(v) {
                Ok(n) => n,
                Err(e) => return Err(e),
            },
            None => match remote.repo_name() {
                Ok(n) => Name(n),
                Err(e) => return Err(e),
            },
        };
        Ok(Repo { remote, rev, location, name })
    }
}

} // verus!
