//! The request body for publishing a new version of an existing dataset.

use vstd::prelude::*;

use crate::models::DatasetUploadFile;

verus! {

/// A new-version request: the version notes, the uploaded files, and the
/// optional settings carried over from the metadata description.
#[derive(Debug, Clone)]
pub struct DatasetNewVersionRequest {
    /// The version notes for the new dataset version
    pub version_notes: String,
    /// The subtitle to set on the dataset
    pub subtitle: Option<String>,
    /// The description to set on the dataset
    pub description: Option<String>,
    /// A list of files that should be associated with the dataset
    pub files: Vec<DatasetUploadFile>,
    /// Whether or not a tabular dataset should be converted to csv
    pub convert_to_csv: Option<bool>,
    /// A list of tag IDs to associated with the dataset
    pub category_ids: Option<Vec<String>>,
    /// Whether or not all previous versions of the dataset should be deleted
    /// upon creating the new version
    pub delete_old_versions: Option<bool>,
}

impl DatasetNewVersionRequest {
    /// A request holding only version notes and uploaded files.
    pub fn new(version_notes: String, files: Vec<DatasetUploadFile>) -> (r: Self)
        ensures
            r.version_notes == version_notes,
            r.files == files,
            r.subtitle is None,
            r.description is None,
            r.convert_to_csv is None,
            r.category_ids is None,
            r.delete_old_versions is None,
    {
        DatasetNewVersionRequest {
            version_notes,
            subtitle: None,
            description: None,
            files,
            convert_to_csv: None,
            category_ids: None,
            delete_old_versions: None,
        }
    }

    /// Set the version notes.
    pub fn set_version_notes(&mut self, version_notes: String)
        ensures
            *final(self) == (DatasetNewVersionRequest { version_notes, ..*old(self) }),
    {
        self.version_notes = version_notes;
    }

    /// Set the version notes, builder style.
    pub fn with_version_notes(self, version_notes: String) -> (r: Self)
        ensures
            r == (DatasetNewVersionRequest { version_notes, ..self }),
    {
        DatasetNewVersionRequest { version_notes, ..self }
    }

    /// The version notes.
    pub fn version_notes(&self) -> (r: &String)
        ensures
            r == &self.version_notes,
    {
        &self.version_notes
    }

    /// Set the subtitle.
    pub fn set_subtitle(&mut self, subtitle: String)
        ensures
            *final(self) == (DatasetNewVersionRequest { subtitle: Some(subtitle), ..*old(self) }),
    {
        self.subtitle = Some(subtitle);
    }

    /// Set the subtitle, builder style.
    pub fn with_subtitle(self, subtitle: String) -> (r: Self)
        ensures
            r == (DatasetNewVersionRequest { subtitle: Some(subtitle), ..self }),
    {
        DatasetNewVersionRequest { subtitle: Some(subtitle), ..self }
    }

    /// The subtitle.
    pub fn subtitle(&self) -> (r: Option<&String>)
        ensures
            match r {
                Some(v) => self.subtitle == Some(*v),
                None => self.subtitle is None,
            },
    {
        self.subtitle.as_ref()
    }

    /// Clear the subtitle.
    pub fn reset_subtitle(&mut self)
        ensures
            *final(self) == (DatasetNewVersionRequest { subtitle: None, ..*old(self) }),
    {
        self.subtitle = None;
    }

    /// Set the description.
    pub fn set_description(&mut self, description: String)
        ensures
            *final(self) == (DatasetNewVersionRequest {
                description: Some(description),
                ..*old(self)
            }),
    {
        self.description = Some(description);
    }

    /// Set the description, builder style.
    pub fn with_description(self, description: String) -> (r: Self)
        ensures
            r == (DatasetNewVersionRequest { description: Some(description), ..self }),
    {
        DatasetNewVersionRequest { description: Some(description), ..self }
    }

    /// The description.
    pub fn description(&self) -> (r: Option<&String>)
        ensures
            match r {
                Some(v) => self.description == Some(*v),
                None => self.description is None,
            },
    {
        self.description.as_ref()
    }

    /// Clear the description.
    pub fn reset_description(&mut self)
        ensures
            *final(self) == (DatasetNewVersionRequest { description: None, ..*old(self) }),
    {
        self.description = None;
    }

    /// Replace the uploaded files.
    pub fn set_files(&mut self, files: Vec<DatasetUploadFile>)
        ensures
            *final(self) == (DatasetNewVersionRequest { files, ..*old(self) }),
    {
        self.files = files;
    }

    /// Replace the uploaded files, builder style.
    pub fn with_files(self, files: Vec<DatasetUploadFile>) -> (r: Self)
        ensures
            r == (DatasetNewVersionRequest { files, ..self }),
    {
        DatasetNewVersionRequest { files, ..self }
    }

    /// The uploaded files.
    pub fn files(&self) -> (r: &Vec<DatasetUploadFile>)
        ensures
            r == &self.files,
    {
        &self.files
    }

    /// Set the convert-to-csv flag.
    pub fn set_convert_to_csv(&mut self, convert_to_csv: bool)
        ensures
            *final(self) == (DatasetNewVersionRequest {
                convert_to_csv: Some(convert_to_csv),
                ..*old(self)
            }),
    {
        self.convert_to_csv = Some(convert_to_csv);
    }

    /// Set the convert-to-csv flag, builder style.
    pub fn with_convert_to_csv(self, convert_to_csv: bool) -> (r: Self)
        ensures
            r == (DatasetNewVersionRequest { convert_to_csv: Some(convert_to_csv), ..self }),
    {
        DatasetNewVersionRequest { convert_to_csv: Some(convert_to_csv), ..self }
    }

    /// The convert-to-csv flag.
    pub fn convert_to_csv(&self) -> (r: Option<&bool>)
        ensures
            match r {
                Some(v) => self.convert_to_csv == Some(*v),
                None => self.convert_to_csv is None,
            },
    {
        self.convert_to_csv.as_ref()
    }

    /// Clear the convert-to-csv flag.
    pub fn reset_convert_to_csv(&mut self)
        ensures
            *final(self) == (DatasetNewVersionRequest { convert_to_csv: None, ..*old(self) }),
    {
        self.convert_to_csv = None;
    }

    /// Replace the category ids.
    pub fn set_category_ids(&mut self, category_ids: Vec<String>)
        ensures
            *final(self) == (DatasetNewVersionRequest {
                category_ids: Some(category_ids),
                ..*old(self)
            }),
    {
        self.category_ids = Some(category_ids);
    }

    /// Replace the category ids, builder style.
    pub fn with_category_ids(self, category_ids: Vec<String>) -> (r: Self)
        ensures
            r == (DatasetNewVersionRequest { category_ids: Some(category_ids), ..self }),
    {
        DatasetNewVersionRequest { category_ids: Some(category_ids), ..self }
    }

    /// The category ids.
    pub fn category_ids(&self) -> (r: Option<&Vec<String>>)
        ensures
            match r {
                Some(v) => self.category_ids == Some(*v),
                None => self.category_ids is None,
            },
    {
        self.category_ids.as_ref()
    }

    /// Clear the category ids.
    pub fn reset_category_ids(&mut self)
        ensures
            *final(self) == (DatasetNewVersionRequest { category_ids: None, ..*old(self) }),
    {
        self.category_ids = None;
    }

    /// Set the delete-old-versions flag.
    pub fn set_delete_old_versions(&mut self, delete_old_versions: bool)
        ensures
            *final(self) == (DatasetNewVersionRequest {
                delete_old_versions: Some(delete_old_versions),
                ..*old(self)
            }),
    {
        self.delete_old_versions = Some(delete_old_versions);
    }

    /// Set the delete-old-versions flag, builder style.
    pub fn with_delete_old_versions(self, delete_old_versions: bool) -> (r: Self)
        ensures
            r == (DatasetNewVersionRequest {
                delete_old_versions: Some(delete_old_versions),
                ..self
            }),
    {
        DatasetNewVersionRequest { delete_old_versions: Some(delete_old_versions), ..self }
    }

    /// The delete-old-versions flag.
    pub fn delete_old_versions(&self) -> (r: Option<&bool>)
        ensures
            match r {
                Some(v) => self.delete_old_versions == Some(*v),
                None => self.delete_old_versions is None,
            },
    {
        self.delete_old_versions.as_ref()
    }

    /// Clear the delete-old-versions flag.
    pub fn reset_delete_old_versions(&mut self)
        ensures
            *final(self) == (DatasetNewVersionRequest { delete_old_versions: None, ..*old(self) }),
    {
        self.delete_old_versions = None;
    }
}

} // verus!
