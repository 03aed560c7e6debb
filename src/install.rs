//! The decisions of the `install` command: whether to prompt, which version
//! to install, where to install it, and how to make it reachable on `PATH`.
use vstd::prelude::*;

use crate::error::InstallError;
use crate::installer::{in_path_list, records, Installer, PathPlan, PathTarget};
use crate::text::{join_path, joined, str_eq};
use crate::version::{
    get_latest_stable_version, latest_from, listed_versions, parse_version_list, views, Version,
    VersionParts,
};

verus! {

/// The options of the `install` command.
pub struct InstallCommand {
    /// The version to install; the latest one when absent.
    pub version: Option<Version>,
    /// The directory to install into; `~/.biome/bin` when absent.
    pub install_dir: Option<String>,
    /// Leave `PATH` alone and tell the user which directory to add.
    pub no_prepend_path: bool,
    /// Never prompt.
    pub non_interactive: bool,
}

/// What became of a request to a version endpoint.
pub enum Fetched {
    /// The endpoint has not been asked yet.
    NotFetched,
    /// The request failed.
    Unavailable,
    /// The body of the response.
    Body(String),
}

/// The next thing to do while resolving the version to install.
pub enum ResolutionStep {
    /// Install this version.
    Use(Version),
    /// Ask the "latest" endpoint.
    FetchLatest,
    /// Ask the "stable list" endpoint.
    FetchList,
    /// Let the user pick among these versions, most recent first; see
    /// [`chosen_version`].
    Choose(Vec<Version>),
    /// No version can be obtained.
    Fail(InstallError),
}

/// A resolution step, with versions seen as their parts.
pub enum Resolution {
    Use(VersionParts),
    FetchLatest,
    FetchList,
    Choose(Seq<VersionParts>),
    Fail,
}

impl View for ResolutionStep {
    type V = Resolution;

    open spec fn view(&self) -> Resolution {
        match self {
            ResolutionStep::Use(v) => Resolution::Use(v@),
            ResolutionStep::FetchLatest => Resolution::FetchLatest,
            ResolutionStep::FetchList => Resolution::FetchList,
            ResolutionStep::Choose(vs) => Resolution::Choose(views(vs@)),
            ResolutionStep::Fail(_) => Resolution::Fail,
        }
    }
}

/// The version that a "latest" response gives, if any.
pub open spec fn latest_given(latest: Fetched) -> Option<VersionParts> {
    match latest {
        Fetched::Body(b) => latest_from(b@),
        _ => None,
    }
}

/// The versions that a "stable list" response gives.
pub open spec fn list_given(list: Fetched) -> Seq<VersionParts> {
    match list {
        Fetched::Body(b) => listed_versions(b@),
        _ => Seq::empty(),
    }
}

/// How the version is resolved. An explicit version wins. When prompting,
/// the stable list is offered first. Otherwise the "latest" endpoint is
/// asked, and when it gives no version the first entry of the stable list
/// is taken; with neither, resolution fails.
pub open spec fn resolution(
    explicit: Option<VersionParts>,
    prompting: bool,
    latest: Fetched,
    list: Fetched,
) -> Resolution {
    if explicit is Some {
        Resolution::Use(explicit->0)
    } else if prompting && list is NotFetched {
        Resolution::FetchList
    } else if prompting && list_given(list).len() > 0 {
        Resolution::Choose(list_given(list))
    } else if latest is NotFetched {
        Resolution::FetchLatest
    } else if latest_given(latest) is Some {
        Resolution::Use(latest_given(latest)->0)
    } else if list is NotFetched {
        Resolution::FetchList
    } else if list_given(list).len() > 0 {
        Resolution::Use(list_given(list)[0])
    } else {
        Resolution::Fail
    }
}

/// The parts of an optional version.
pub open spec fn opt_version(v: Option<Version>) -> Option<VersionParts> {
    match v {
        Some(x) => Some(x@),
        None => None,
    }
}

/// The version to install once the user was offered `offered`: the one
/// selected, or the most recent one when no selection could be read.
pub fn chosen_version(selection: Option<Version>, offered: &Vec<Version>) -> (r: Version)
    requires
        offered@.len() > 0,
    ensures
        r@ == match selection {
            Some(v) => v@,
            None => offered@[0]@,
        },
{
    match selection {
        Some(v) => v,
        None => offered[0].clone(),
    }
}

impl InstallCommand {
    /// Whether to prompt: only when not asked to run non-interactively, not
    /// in CI, and attached to an interactive terminal.
    pub fn should_prompt(&self, is_interactive: bool, runs_in_ci: bool) -> (r: bool)
        ensures
            r == (!self.non_interactive && !runs_in_ci && is_interactive),
    {
        !self.non_interactive && !runs_in_ci && is_interactive
    }

    /// Whether to ask before touching `PATH`: only when prompting, when the
    /// user did not opt out, and when the update can be automated (a shell
    /// configuration file is known, or the platform keeps `PATH` in the
    /// user environment). Without an answer the user is left to update
    /// `PATH` by hand.
    pub fn should_prompt_update_path(&self, prompting: bool, automatable: bool) -> (r: bool)
        ensures
            r == (prompting && !self.no_prepend_path && automatable),
    {
        prompting && !self.no_prepend_path && automatable
    }

    /// The directory to install into: the one given, or `.biome/bin` under
    /// the home directory; without either the installation fails.
    pub fn resolve_install_dir(&self, home: Option<&str>, os: &str) -> (r: Result<
        String,
        InstallError,
    >)
        ensures
            match r {
                Ok(d) => match self.install_dir {
                    Some(given) => d@ == given@,
                    None => home matches Some(h) && d@ == joined(
                        joined(
                            h@,
                            if os@ == "windows"@ {
                                '\\'
                            } else {
                                '/'
                            },
                            ".biome"@,
                        ),
                        if os@ == "windows"@ {
                            '\\'
                        } else {
                            '/'
                        },
                        "bin"@,
                    ),
                },
                Err(e) => self.install_dir is None && home is None && e == InstallError::Install,
            },
    {
        match &self.install_dir {
            Some(given) => Ok(given.clone()),
            None => match home {
                Some(h) => {
                    let sep = if str_eq(os, "windows") {
                        "\\"
                    } else {
                        "/"
                    };
                    proof {
                        reveal_strlit("\\");
                        reveal_strlit("/");
                    }
                    let base = join_path(h, sep, ".biome");
                    Ok(join_path(base.as_str(), sep, "bin"))
                },
                None => Err(InstallError::Install),
            },
        }
    }

    /// The next step of version resolution, given what the two version
    /// endpoints have answered so far.
    pub fn resolve_version(&self, prompting: bool, latest: &Fetched, list: &Fetched) -> (r:
        ResolutionStep)
        ensures
            r@ == resolution(opt_version(self.version), prompting, *latest, *list),
            r matches ResolutionStep::Fail(e) ==> e == InstallError::Resolution,
    {
        if let Some(v) = &self.version {
            return ResolutionStep::Use(v.clone());
        }
        let listed = match list {
            Fetched::Body(b) => parse_version_list(b.as_str()),
            _ => Vec::new(),
        };
        assert(views(listed@) == list_given(*list)) by {
            if !(list is Body) {
                assert(views(listed@) == Seq::<VersionParts>::empty());
            }
        }
        if prompting {
            if let Fetched::NotFetched = list {
                return ResolutionStep::FetchList;
            }
            if listed.len() > 0 {
                return ResolutionStep::Choose(listed);
            }
        }
        match latest {
            Fetched::NotFetched => {
                return ResolutionStep::FetchLatest;
            },
            Fetched::Body(b) => {
                if let Ok(v) = get_latest_stable_version(b.as_str()) {
                    return ResolutionStep::Use(v);
                }
            },
            Fetched::Unavailable => {},
        }
        if let Fetched::NotFetched = list {
            return ResolutionStep::FetchList;
        }
        if listed.len() > 0 {
            return ResolutionStep::Use(listed[0].clone());
        }
        ResolutionStep::Fail(InstallError::Resolution)
    }

    /// Decides what to do about `PATH` once `installer` has placed the
    /// binary: nothing when the user opted out, manual instructions when a
    /// prompt did not end in consent, and otherwise the change that the PATH
    /// record of the installation directory needs.
    pub fn prepend_install_dir_to_path_if_needed(
        &self,
        prompting: bool,
        consent: Option<bool>,
        installer: &Installer,
        target: &PathTarget,
    ) -> (r: PathPlan)
        ensures
            self.no_prepend_path ==> r is OptedOut,
            (*target matches PathTarget::RcFile { live_path, .. } && in_path_list(
                live_path@,
                installer.install_dir(),
            )) ==> !(r is WriteConfig) && !(r is WriteRegistry),
            (*target matches PathTarget::RcFile { shell: Some(_), live_path, .. } && in_path_list(
                live_path@,
                installer.install_dir(),
            ) && !self.no_prepend_path && (!prompting || consent == Some(true)))
                ==> r is AlreadyPresent,
            match r {
                PathPlan::OptedOut => self.no_prepend_path,
                PathPlan::Manual => !self.no_prepend_path && prompting && consent != Some(true),
                _ => !self.no_prepend_path && (!prompting || consent == Some(true)) && records(
                    installer.install_dir(),
                    *target,
                    r,
                ),
            },
    {
        if self.no_prepend_path {
            return PathPlan::OptedOut;
        }
        if prompting {
            match consent {
                Some(true) => {},
                _ => {
                    return PathPlan::Manual;
                },
            }
        }
        installer.prepend_install_dir_to_path(target)
    }
}

/// Without an explicit version and without prompting, a "latest" response
/// that names a version resolves to that version, exactly as naming it
/// explicitly does; what follows depends on the version alone.
pub proof fn lemma_latest_same_as_explicit(
    latest: Fetched,
    list: Fetched,
    v: VersionParts,
)
    requires
        latest_given(latest) == Some(v),
    ensures
        resolution(None, false, latest, list) == Resolution::Use(v),
        resolution(Some(v), false, latest, list) == Resolution::Use(v),
{
}

} // verus!
