//! The remote side of a cycle: where the tracked branch lives and how it is
//! addressed, once for the commit query and once for the version-control tool.

use vstd::prelude::*;

verus! {

/// Where the tracked branch lives, with the token that gives access to it.
///
/// A descriptor is a capability: it is made once from configuration and
/// handed unchanged to whoever queries or fetches.
#[derive(Debug)]
pub enum RemoteDescriptor {
    /// A hosted repository named by its organization, project and repository;
    /// both addresses are built from the names.
    Hosted {
        organization: String,
        project: String,
        repository: String,
        branch: String,
        token: String,
    },
    /// A repository whose commit query address is given in full.
    /// `repository_host` is the address of the repository for the tool,
    /// without scheme and without credentials.
    Direct { query_url: String, repository_host: String, branch: String, token: String },
}

/// The mathematical value of a [`RemoteDescriptor`].
pub enum RemoteDescriptorView {
    Hosted {
        organization: Seq<char>,
        project: Seq<char>,
        repository: Seq<char>,
        branch: Seq<char>,
        token: Seq<char>,
    },
    Direct {
        query_url: Seq<char>,
        repository_host: Seq<char>,
        branch: Seq<char>,
        token: Seq<char>,
    },
}

impl View for RemoteDescriptor {
    type V = RemoteDescriptorView;

    open spec fn view(&self) -> RemoteDescriptorView {
        match *self {
            RemoteDescriptor::Hosted {
                organization,
                project,
                repository,
                branch,
                token,
            } => RemoteDescriptorView::Hosted {
                organization: organization@,
                project: project@,
                repository: repository@,
                branch: branch@,
                token: token@,
            },
            RemoteDescriptor::Direct {
                query_url,
                repository_host,
                branch,
                token,
            } => RemoteDescriptorView::Direct {
                query_url: query_url@,
                repository_host: repository_host@,
                branch: branch@,
                token: token@,
            },
        }
    }
}

impl RemoteDescriptorView {
    /// The tracked branch.
    pub open spec fn branch(self) -> Seq<char> {
        match self {
            RemoteDescriptorView::Hosted { branch, .. } => branch,
            RemoteDescriptorView::Direct { branch, .. } => branch,
        }
    }

    /// The access token.
    pub open spec fn token(self) -> Seq<char> {
        match self {
            RemoteDescriptorView::Hosted { token, .. } => token,
            RemoteDescriptorView::Direct { token, .. } => token,
        }
    }

    /// The address of the commit listing, scoped to the tracked branch.
    pub open spec fn query_url(self) -> Seq<char> {
        match self {
            RemoteDescriptorView::Hosted { organization, project, repository, branch, .. } => {
                "https://dev.azure.com/"@ + organization + "/"@ + project
                    + "/_apis/git/repositories/"@ + repository + "/commits?branchName="@ + branch
                    + "&searchCriteria.itemVersion.version="@ + branch
                    + "&searchCriteria.itemVersion.versionType=branch"@
            },
            RemoteDescriptorView::Direct { query_url, .. } => query_url,
        }
    }

    /// The address handed to the tool, with the credentials in it. The user
    /// name is the organization for a hosted repository and empty otherwise.
    pub open spec fn tool_url(self) -> Seq<char> {
        match self {
            RemoteDescriptorView::Hosted { organization, project, repository, token, .. } => {
                "https://"@ + organization + ":"@ + token + "@dev.azure.com/"@ + organization
                    + "/"@ + project + "/_git/"@ + repository
            },
            RemoteDescriptorView::Direct { repository_host, token, .. } => {
                "https://:"@ + token + "@"@ + repository_host
            },
        }
    }
}

impl RemoteDescriptor {
    /// The tracked branch.
    pub fn branch(&self) -> (b: &String)
        ensures
            b@ == self@.branch(),
    {
        match self {
            RemoteDescriptor::Hosted { branch, .. } => branch,
            RemoteDescriptor::Direct { branch, .. } => branch,
        }
    }

    /// The access token.
    pub fn token(&self) -> (t: &String)
        ensures
            t@ == self@.token(),
    {
        match self {
            RemoteDescriptor::Hosted { token, .. } => token,
            RemoteDescriptor::Direct { token, .. } => token,
        }
    }

    /// Builds the address of the commit listing.
    pub fn query_url(&self) -> (url: String)
        ensures
            url@ == self@.query_url(),
    {
        match self {
            RemoteDescriptor::Hosted { organization, project, repository, branch, .. } => {
                let mut url = String::from_str("https://dev.azure.com/");
                url.append(organization.as_str());
                url.append("/");
                url.append(project.as_str());
                url.append("/_apis/git/repositories/");
                url.append(repository.as_str());
                url.append("/commits?branchName=");
                url.append(branch.as_str());
                url.append("&searchCriteria.itemVersion.version=");
                url.append(branch.as_str());
                url.append("&searchCriteria.itemVersion.versionType=branch");
                url
            },
            RemoteDescriptor::Direct { query_url, .. } => query_url.clone(),
        }
    }

    /// Builds the address handed to the tool on every fetch and pull, so that
    /// no remote needs to be registered in the working copy.
    pub fn tool_url(&self) -> (url: String)
        ensures
            url@ == self@.tool_url(),
    {
        match self {
            RemoteDescriptor::Hosted { organization, project, repository, token, .. } => {
                let mut url = String::from_str("https://");
                url.append(organization.as_str());
                url.append(":");
                url.append(token.as_str());
                url.append("@dev.azure.com/");
                url.append(organization.as_str());
                url.append("/");
                url.append(project.as_str());
                url.append("/_git/");
                url.append(repository.as_str());
                url
            },
            RemoteDescriptor::Direct { repository_host, token, .. } => {
                let mut url = String::from_str("https://:");
                url.append(token.as_str());
                url.append("@");
                url.append(repository_host.as_str());
                url
            },
        }
    }
}

} // verus!
