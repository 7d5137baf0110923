//! Reading and overriding single fields.
//!
//! A getter hands out the field's text, or a `MissingConfig` error whose
//! detail names the flag that sets the field. A setter takes a candidate and
//! sets the field to it, unless the candidate is empty: then nothing changes.

use crate::config::{Config, ConfigView};
use crate::errors::{missing_config, DeliveryError};
use vstd::prelude::*;

verus! {

/// The field's text, or the error that says with `hint` what to do about it.
fn value_or_missing(field: Option<String>, hint: &str) -> (value: Result<String, DeliveryError>)
    ensures
        match field {
            Some(text) => value matches Ok(found) && found@ == text@,
            None => value matches Err(error) && error@ == missing_config(hint@),
        },
{
    match field {
        Some(text) => Ok(text),
        None => Err(DeliveryError::missing_config(hint)),
    }
}

impl Config {
    /// The text of the server; a `MissingConfig` error where it is unset.
    pub fn server(self) -> (value: Result<String, DeliveryError>)
        ensures
            match self@.server {
                Some(text) => value matches Ok(found) && found@ == text,
                None => value matches Err(error) && error@ == missing_config(
                    "Server not set; try --server"@,
                ),
            },
    {
        value_or_missing(self.server, "Server not set; try --server")
    }

    /// This configuration with `server` as the server; unchanged where `server`
    /// is empty.
    pub fn set_server(self, server: &str) -> (config: Config)
        ensures
            server@.len() == 0 ==> config@ == self@,
            server@.len() > 0 ==> config@ == (ConfigView { server: Some(server@), ..self@ }),
            self@.well_formed() ==> config@.well_formed(),
    {
        let mut config = self;
        if !server.is_empty() {
            config.server = Some(server.to_owned());
        }
        config
    }

    /// The text of the user; a `MissingConfig` error where it is unset.
    pub fn user(self) -> (value: Result<String, DeliveryError>)
        ensures
            match self@.user {
                Some(text) => value matches Ok(found) && found@ == text,
                None => value matches Err(error) && error@ == missing_config(
                    "User not set; try --user"@,
                ),
            },
    {
        value_or_missing(self.user, "User not set; try --user")
    }

    /// This configuration with `user` as the user; unchanged where `user`
    /// is empty.
    pub fn set_user(self, user: &str) -> (config: Config)
        ensures
            user@.len() == 0 ==> config@ == self@,
            user@.len() > 0 ==> config@ == (ConfigView { user: Some(user@), ..self@ }),
            self@.well_formed() ==> config@.well_formed(),
    {
        let mut config = self;
        if !user.is_empty() {
            config.user = Some(user.to_owned());
        }
        config
    }

    /// The text of the enterprise; a `MissingConfig` error where it is unset.
    pub fn enterprise(self) -> (value: Result<String, DeliveryError>)
        ensures
            match self@.enterprise {
                Some(text) => value matches Ok(found) && found@ == text,
                None => value matches Err(error) && error@ == missing_config(
                    "Enterprise not set; try --ent"@,
                ),
            },
    {
        value_or_missing(self.enterprise, "Enterprise not set; try --ent")
    }

    /// This configuration with `enterprise` as the enterprise; unchanged where `enterprise`
    /// is empty.
    pub fn set_enterprise(self, enterprise: &str) -> (config: Config)
        ensures
            enterprise@.len() == 0 ==> config@ == self@,
            enterprise@.len() > 0 ==> config@ == (ConfigView { enterprise: Some(enterprise@), ..self@ }),
            self@.well_formed() ==> config@.well_formed(),
    {
        let mut config = self;
        if !enterprise.is_empty() {
            config.enterprise = Some(enterprise.to_owned());
        }
        config
    }

    /// The text of the organization; a `MissingConfig` error where it is unset.
    pub fn organization(self) -> (value: Result<String, DeliveryError>)
        ensures
            match self@.organization {
                Some(text) => value matches Ok(found) && found@ == text,
                None => value matches Err(error) && error@ == missing_config(
                    "Organization not set; try --org"@,
                ),
            },
    {
        value_or_missing(self.organization, "Organization not set; try --org")
    }

    /// This configuration with `organization` as the organization; unchanged where `organization`
    /// is empty.
    pub fn set_organization(self, organization: &str) -> (config: Config)
        ensures
            organization@.len() == 0 ==> config@ == self@,
            organization@.len() > 0 ==> config@ == (ConfigView { organization: Some(organization@), ..self@ }),
            self@.well_formed() ==> config@.well_formed(),
    {
        let mut config = self;
        if !organization.is_empty() {
            config.organization = Some(organization.to_owned());
        }
        config
    }

    /// The text of the project; a `MissingConfig` error where it is unset.
    pub fn project(self) -> (value: Result<String, DeliveryError>)
        ensures
            match self@.project {
                Some(text) => value matches Ok(found) && found@ == text,
                None => value matches Err(error) && error@ == missing_config(
                    "Project not set; try --project"@,
                ),
            },
    {
        value_or_missing(self.project, "Project not set; try --project")
    }

    /// This configuration with `project` as the project; unchanged where `project`
    /// is empty.
    pub fn set_project(self, project: &str) -> (config: Config)
        ensures
            project@.len() == 0 ==> config@ == self@,
            project@.len() > 0 ==> config@ == (ConfigView { project: Some(project@), ..self@ }),
            self@.well_formed() ==> config@.well_formed(),
    {
        let mut config = self;
        if !project.is_empty() {
            config.project = Some(project.to_owned());
        }
        config
    }

    /// The text of the git port; a `MissingConfig` error where it is unset.
    pub fn git_port(self) -> (value: Result<String, DeliveryError>)
        ensures
            match self@.git_port {
                Some(text) => value matches Ok(found) && found@ == text,
                None => value matches Err(error) && error@ == missing_config(
                    "Git Port not set"@,
                ),
            },
    {
        value_or_missing(self.git_port, "Git Port not set")
    }

    /// This configuration with `git_port` as the git port; unchanged where `git_port`
    /// is empty.
    pub fn set_git_port(self, git_port: &str) -> (config: Config)
        ensures
            git_port@.len() == 0 ==> config@ == self@,
            git_port@.len() > 0 ==> config@ == (ConfigView { git_port: Some(git_port@), ..self@ }),
            self@.well_formed() ==> config@.well_formed(),
    {
        let mut config = self;
        if !git_port.is_empty() {
            config.git_port = Some(git_port.to_owned());
        }
        config
    }

    /// The text of the pipeline; a `MissingConfig` error where it is unset.
    pub fn pipeline(self) -> (value: Result<String, DeliveryError>)
        ensures
            match self@.pipeline {
                Some(text) => value matches Ok(found) && found@ == text,
                None => value matches Err(error) && error@ == missing_config(
                    "Pipeline not set; try --for"@,
                ),
            },
    {
        value_or_missing(self.pipeline, "Pipeline not set; try --for")
    }

    /// This configuration with `pipeline` as the pipeline; unchanged where `pipeline`
    /// is empty.
    pub fn set_pipeline(self, pipeline: &str) -> (config: Config)
        ensures
            pipeline@.len() == 0 ==> config@ == self@,
            pipeline@.len() > 0 ==> config@ == (ConfigView { pipeline: Some(pipeline@), ..self@ }),
            self@.well_formed() ==> config@.well_formed(),
    {
        let mut config = self;
        if !pipeline.is_empty() {
            config.pipeline = Some(pipeline.to_owned());
        }
        config
    }
}

} // verus!
