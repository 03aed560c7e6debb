//! Semantic versions: parsing through the `semver` crate, their canonical
//! text, and the version indexes served by the release site.
use vstd::prelude::*;

use crate::error::InstallError;
use crate::text::{decimal, lines, push_decimal, trim, trimmed};

verus! {

/// The parts of a semantic version: major, minor and patch numbers, then
/// pre-release and build metadata (empty when absent).
pub type VersionParts = (u64, u64, u64, Seq<char>, Seq<char>);

/// A semantic version: `major.minor.patch`, with optional pre-release and
/// build metadata (empty when absent).
#[derive(Debug)]
pub struct Version {
    pub major: u64,
    pub minor: u64,
    pub patch: u64,
    pub pre: String,
    pub build: String,
}

impl View for Version {
    type V = VersionParts;

    open spec fn view(&self) -> VersionParts {
        (self.major, self.minor, self.patch, self.pre@, self.build@)
    }
}

impl Clone for Version {
    fn clone(&self) -> (r: Self)
        ensures
            r@ == self@,
    {
        Version {
            major: self.major,
            minor: self.minor,
            patch: self.patch,
            pre: self.pre.clone(),
            build: self.build.clone(),
        }
    }
}

/// What `semver::Version::parse` makes of a text, as the parts of a
/// version, or `None` when it rejects the text.
pub uninterp spec fn semver_parse(text: Seq<char>) -> Option<(u64, u64, u64, Seq<char>, Seq<char>)>;

/// Relies on `semver::Version::parse`, whose result depends on the text
/// alone; the parts of the parsed version are carried over unchanged.
#[verifier::external_body]
fn parse_semver(text: &str) -> (r: Option<Version>)
    ensures
        r matches Some(v) ==> semver_parse(text@) == Some(v@),
        r is None ==> semver_parse(text@) is None,
{
    match semver::Version::parse(text) {
        Ok(v) => Some(
            Version {
                major: v.major,
                minor: v.minor,
                patch: v.patch,
                pre: v.pre.as_str().to_string(),
                build: v.build.as_str().to_string(),
            },
        ),
        Err(_) => None,
    }
}

/// The canonical text of a version: `major.minor.patch`, then `-pre` and
/// `+build` when those are not empty.
pub open spec fn version_text(v: VersionParts) -> Seq<char> {
    decimal(v.0 as nat) + "."@ + decimal(v.1 as nat) + "."@ + decimal(v.2 as nat) + (if v.3.len()
        > 0 {
        "-"@ + v.3
    } else {
        Seq::empty()
    }) + (if v.4.len() > 0 {
        "+"@ + v.4
    } else {
        Seq::empty()
    })
}

impl Version {
    /// A release version without pre-release or build metadata.
    pub fn new(major: u64, minor: u64, patch: u64) -> (r: Version)
        ensures
            r@ == (major, minor, patch, Seq::<char>::empty(), Seq::<char>::empty()),
    {
        Version { major, minor, patch, pre: String::new(), build: String::new() }
    }

    /// Parses a semantic version.
    pub fn parse(text: &str) -> (r: Option<Version>)
        ensures
            r matches Some(v) ==> semver_parse(text@) == Some(v@),
            r is None ==> semver_parse(text@) is None,
    {
        parse_semver(text)
    }

    /// The canonical text of this version.
    pub fn to_string(&self) -> (r: String)
        ensures
            r@ == version_text(self@),
    {
        let mut r = String::new();
        push_decimal(&mut r, self.major);
        r.append(".");
        push_decimal(&mut r, self.minor);
        r.append(".");
        push_decimal(&mut r, self.patch);
        let ghost base = r@;
        if self.pre.unicode_len() > 0 {
            r.append("-");
            r.append(self.pre.as_str());
        }
        assert(r@ == base + (if self.pre@.len() > 0 {
            "-"@ + self.pre@
        } else {
            Seq::empty()
        }));
        let ghost base2 = r@;
        if self.build.unicode_len() > 0 {
            r.append("+");
            r.append(self.build.as_str());
        }
        assert(r@ == base2 + (if self.build@.len() > 0 {
            "+"@ + self.build@
        } else {
            Seq::empty()
        }));
        r
    }
}

/// The version that the "latest" endpoint names: its whole body, trimmed.
pub open spec fn latest_from(body: Seq<char>) -> Option<VersionParts> {
    semver_parse(trimmed(body))
}

/// Reads the body of the "latest" endpoint as a single version.
pub fn get_latest_stable_version(body: &str) -> (r: Result<Version, InstallError>)
    ensures
        r matches Ok(v) ==> latest_from(body@) == Some(v@),
        r is Err ==> latest_from(body@) is None && r == Err::<Version, InstallError>(
            InstallError::Resolution,
        ),
{
    match parse_semver(trim(body)) {
        Some(v) => Ok(v),
        None => Err(InstallError::Resolution),
    }
}

/// The version that one line of the "stable list" endpoint gives: the line
/// is trimmed, and a blank or unparsable line gives none.
pub open spec fn line_version(line: Seq<char>) -> Option<VersionParts> {
    if trimmed(line).len() > 0 {
        semver_parse(trimmed(line))
    } else {
        None
    }
}

/// The versions of a list of lines, in order.
pub open spec fn listed(ls: Seq<Seq<char>>) -> Seq<VersionParts>
    decreases ls.len(),
{
    if ls.len() == 0 {
        Seq::empty()
    } else {
        match line_version(ls.last()) {
            Some(v) => listed(ls.drop_last()).push(v),
            None => listed(ls.drop_last()),
        }
    }
}

/// The versions of the body of the "stable list" endpoint.
pub open spec fn listed_versions(body: Seq<char>) -> Seq<VersionParts> {
    listed(lines(body))
}

/// The views of a sequence of versions.
pub open spec fn views(vs: Seq<Version>) -> Seq<VersionParts> {
    vs.map_values(|v: Version| v@)
}

/// Adds the version of one line, if it has one.
fn take_line(out: &mut Vec<Version>, line: &str)
    ensures
        views(final(out)@) == match line_version(line@) {
            Some(v) => views(old(out)@).push(v),
            None => views(old(out)@),
        },
{
    let t = trim(line);
    if t.unicode_len() > 0 {
        if let Some(v) = parse_semver(t) {
            let ghost vv = v@;
            out.push(v);
            assert(views(out@) == views(old(out)@).push(vv));
        }
    }
}

/// Reads the body of the "stable list" endpoint: one version per line,
/// most recent first, with blank and unparsable lines passed over.
pub fn parse_version_list(body: &str) -> (r: Vec<Version>)
    ensures
        views(r@) == listed_versions(body@),
{
    let n = body.unicode_len();
    let mut out: Vec<Version> = Vec::new();
    let mut start: usize = 0;
    let mut i: usize = 0;
    let ghost mut done: Seq<Seq<char>> = Seq::empty();
    assert(body@.subrange(0, 0) == Seq::<char>::empty());
    assert(views(out@) == Seq::<VersionParts>::empty());
    while i < n
        invariant
            n == body@.len(),
            start <= i <= n,
            lines(body@.subrange(0, i as int)) == done.push(body@.subrange(start as int, i as int)),
            views(out@) == listed(done),
        decreases n - i,
    {
        let c = body.get_char(i);
        let ghost pre = body@.subrange(0, i as int);
        assert(body@.subrange(0, i + 1).drop_last() == pre);
        assert(body@.subrange(0, i + 1).last() == c);
        if c == '\n' {
            take_line(&mut out, body.substring_char(start, i));
            proof {
                let l = body@.subrange(start as int, i as int);
                assert(done.push(l).drop_last() == done);
                done = done.push(l);
                assert(body@.subrange(i + 1, i + 1) == Seq::<char>::empty());
            }
            start = i + 1;
        } else {
            proof {
                assert(body@.subrange(start as int, i + 1) == body@.subrange(
                    start as int,
                    i as int,
                ).push(c));
            }
        }
        i = i + 1;
    }
    take_line(&mut out, body.substring_char(start, n));
    proof {
        let l = body@.subrange(start as int, n as int);
        assert(body@.subrange(0, n as int) == body@);
        assert(done.push(l).drop_last() == done);
    }
    out
}

} // verus!
