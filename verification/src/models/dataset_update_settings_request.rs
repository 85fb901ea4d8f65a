//! The request body for updating a dataset's settings.

use vstd::prelude::*;

use crate::models::{Collaborator, License};

verus! {

/// A settings update for an existing dataset. Unset fields are left
/// untouched by the server.
#[derive(Debug, Clone)]
pub struct DatasetUpdateSettingsRequest {
    /// Title of the dataset
    pub title: Option<String>,
    /// Subtitle of the dataset
    pub subtitle: Option<String>,
    /// Description of the dataset
    pub description: Option<String>,
    /// Whether or not the dataset should be private
    pub is_private: Option<bool>,
    /// A list of licenses that apply to this dataset
    pub licenses: Vec<License>,
    /// A list of keywords that apply to this dataset
    pub keywords: Vec<String>,
    /// A list of collaborators that may read or edit this dataset
    pub collaborators: Vec<Collaborator>,
    /// Raw JSON text holding metadata for each file in the dataset
    pub data: Option<String>,
}

impl DatasetUpdateSettingsRequest {
    /// A settings update that sets only the title.
    pub fn with_title(title: String) -> (r: Self)
        ensures
            r.title == Some(title),
            r.subtitle is None,
            r.description is None,
            r.is_private is None,
            r.licenses@ == Seq::<License>::empty(),
            r.keywords@ == Seq::<String>::empty(),
            r.collaborators@ == Seq::<Collaborator>::empty(),
            r.data is None,
    {
        Self {
            title: Some(title),
            subtitle: None,
            description: None,
            is_private: None,
            licenses: Vec::new(),
            keywords: Vec::new(),
            collaborators: Vec::new(),
            data: None,
        }
    }

    /// Set the title.
    pub fn set_title(&mut self, title: String)
        ensures
            *final(self) == (DatasetUpdateSettingsRequest { title: Some(title), ..*old(self) }),
    {
        self.title = Some(title);
    }

    /// The title.
    pub fn title(&self) -> (r: Option<&String>)
        ensures
            match r {
                Some(v) => self.title == Some(*v),
                None => self.title is None,
            },
    {
        self.title.as_ref()
    }

    /// Clear the title.
    pub fn reset_title(&mut self)
        ensures
            *final(self) == (DatasetUpdateSettingsRequest { title: None, ..*old(self) }),
    {
        self.title = None;
    }

    /// Set the subtitle.
    pub fn set_subtitle(&mut self, subtitle: String)
        ensures
            *final(self) == (DatasetUpdateSettingsRequest {
                subtitle: Some(subtitle),
                ..*old(self)
            }),
    {
        self.subtitle = Some(subtitle);
    }

    /// Set the subtitle, builder style.
    pub fn with_subtitle(self, subtitle: String) -> (r: Self)
        ensures
            r == (DatasetUpdateSettingsRequest { subtitle: Some(subtitle), ..self }),
    {
        DatasetUpdateSettingsRequest { subtitle: Some(subtitle), ..self }
    }

    /// The subtitle.
    pub fn subtitle(&self) -> (r: Option<&String>)
        ensures
            match r {
                Some(v) => self.subtitle == Some(*v),
                None => self.subtitle is None,
            },
    {
        self.subtitle.as_ref()
    }

    /// Clear the subtitle.
    pub fn reset_subtitle(&mut self)
        ensures
            *final(self) == (DatasetUpdateSettingsRequest { subtitle: None, ..*old(self) }),
    {
        self.subtitle = None;
    }

    /// Set the description.
    pub fn set_description(&mut self, description: String)
        ensures
            *final(self) == (DatasetUpdateSettingsRequest {
                description: Some(description),
                ..*old(self)
            }),
    {
        self.description = Some(description);
    }

    /// Set the description, builder style.
    pub fn with_description(self, description: String) -> (r: Self)
        ensures
            r == (DatasetUpdateSettingsRequest { description: Some(description), ..self }),
    {
        DatasetUpdateSettingsRequest { description: Some(description), ..self }
    }

    /// The description.
    pub fn description(&self) -> (r: Option<&String>)
        ensures
            match r {
                Some(v) => self.description == Some(*v),
                None => self.description is None,
            },
    {
        self.description.as_ref()
    }

    /// Set the privacy flag.
    pub fn set_is_private(&mut self, is_private: bool)
        ensures
            *final(self) == (DatasetUpdateSettingsRequest {
                is_private: Some(is_private),
                ..*old(self)
            }),
    {
        self.is_private = Some(is_private);
    }

    /// Set the privacy flag, builder style.
    pub fn with_is_private(self, is_private: bool) -> (r: Self)
        ensures
            r == (DatasetUpdateSettingsRequest { is_private: Some(is_private), ..self }),
    {
        DatasetUpdateSettingsRequest { is_private: Some(is_private), ..self }
    }

    /// Replace the licenses, builder style.
    pub fn with_licenses(self, licenses: Vec<License>) -> (r: Self)
        ensures
            r == (DatasetUpdateSettingsRequest { licenses, ..self }),
    {
        DatasetUpdateSettingsRequest { licenses, ..self }
    }

    /// Replace the keywords, builder style.
    pub fn with_keywords(self, keywords: Vec<String>) -> (r: Self)
        ensures
            r == (DatasetUpdateSettingsRequest { keywords, ..self }),
    {
        DatasetUpdateSettingsRequest { keywords, ..self }
    }

    /// Replace the collaborators, builder style.
    pub fn with_collaborators(self, collaborators: Vec<Collaborator>) -> (r: Self)
        ensures
            r == (DatasetUpdateSettingsRequest { collaborators, ..self }),
    {
        DatasetUpdateSettingsRequest { collaborators, ..self }
    }

    /// Set the per-file data, builder style.
    pub fn with_data(self, data: String) -> (r: Self)
        ensures
            r == (DatasetUpdateSettingsRequest { data: Some(data), ..self }),
    {
        DatasetUpdateSettingsRequest { data: Some(data), ..self }
    }

    /// Set the per-file data.
    pub fn set_data(&mut self, data: String)
        ensures
            *final(self) == (DatasetUpdateSettingsRequest { data: Some(data), ..*old(self) }),
    {
        self.data = Some(data);
    }
}

} // verus!
