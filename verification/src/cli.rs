//! The choices a command is given: provider, kind of resource, report format.

use vstd::prelude::*;
use vstd::string::StringExecFns;

verus! {

/// The cloud whose fleet a command works on.
#[derive(Clone, Copy, Debug, PartialEq, Eq, Structural)]
pub enum CloudProvider {
    Aws,
    Gcp,
    Azure,
}

impl CloudProvider {
    /// The provider's name as it is shown to the user.
    pub open spec fn name(self) -> Seq<char> {
        match self {
            CloudProvider::Aws => "AWS"@,
            CloudProvider::Gcp => "GCP"@,
            CloudProvider::Azure => "Azure"@,
        }
    }

    /// The provider's name as it is shown to the user.
    pub fn to_text(&self) -> (s: String)
        ensures
            s@ == self.name(),
    {
        match self {
            CloudProvider::Aws => String::from_str("AWS"),
            CloudProvider::Gcp => String::from_str("GCP"),
            CloudProvider::Azure => String::from_str("Azure"),
        }
    }
}

/// The kind of resource a command looks at.
#[derive(Clone, Copy, Debug, PartialEq, Eq, Structural)]
pub enum ResourceType {
    Ec2,
    S3,
    Rds,
    Lambda,
    LoadBalancer,
    Vpc,
    Subnet,
    SecurityGroup,
    All,
}

/// How a report is laid out.
#[derive(Clone, Copy, Debug, PartialEq, Eq, Structural)]
pub enum OutputFormat {
    Table,
    Json,
    Csv,
}

} // verus!
