//! The request body for creating a brand-new dataset, and the builder and
//! local configuration value that produce it.

use vstd::prelude::*;

use crate::archive::ArchiveMode;
use crate::error::KaggleError;
use crate::models::metadata::{first_bad_resource, Metadata};
use crate::models::{DatasetUploadFile, License};

verus! {

/// The local configuration for creating a dataset: the metadata description
/// together with the flags that the create call takes.
#[derive(Debug, Clone)]
pub struct DatasetNew {
    /// The directory holding the metadata file, or nothing when the dataset
    /// has no resources on disk.
    pub dataset_folder: Option<String>,
    /// The metadata of the dataset
    pub metadata: Metadata,
    /// Whether or not the dataset should be private
    pub is_private: bool,
    /// Whether or not a tabular dataset should be converted to csv
    pub convert_to_csv: bool,
    /// How to archive the files beforehand
    pub archive_mode: ArchiveMode,
}

impl DatasetNew {
    /// A configuration around the given metadata: private, converted to csv
    /// and unarchived unless changed.
    pub fn with_metadata(metadata: Metadata) -> (r: Self)
        ensures
            r.dataset_folder is None,
            r.metadata == metadata,
            r.is_private == true,
            r.convert_to_csv == true,
            r.archive_mode == ArchiveMode::Skip,
    {
        Self {
            dataset_folder: None,
            metadata,
            is_private: true,
            convert_to_csv: true,
            archive_mode: ArchiveMode::Skip,
        }
    }

    /// Validate the declared resources against the paths that exist on
    /// disk, skipping the check when no folder is configured.
    pub fn validate_resources(&self, existing: &Vec<String>) -> (r: Result<(), KaggleError>)
        ensures
            self.dataset_folder is None ==> r is Ok,
            self.dataset_folder is Some ==> (r is Ok <==> first_bad_resource(
                self.metadata.resources@,
                existing@,
            ) == -1),
    {
        match &self.dataset_folder {
            Some(_) => self.metadata.validate_resource(existing),
            None => Ok(()),
        }
    }

    /// Set the privacy flag, builder style.
    pub fn with_private(self, is_private: bool) -> (r: Self)
        ensures
            r == (DatasetNew { is_private, ..self }),
    {
        DatasetNew { is_private, ..self }
    }

    /// Mark the dataset private.
    pub fn private(self) -> (r: Self)
        ensures
            r == (DatasetNew { is_private: true, ..self }),
    {
        DatasetNew { is_private: true, ..self }
    }

    /// Mark the dataset public.
    pub fn public(self) -> (r: Self)
        ensures
            r == (DatasetNew { is_private: false, ..self }),
    {
        DatasetNew { is_private: false, ..self }
    }

    /// Set the convert-to-csv flag, builder style.
    pub fn convert_to_csv(self, convert_to_csv: bool) -> (r: Self)
        ensures
            r == (DatasetNew { convert_to_csv, ..self }),
    {
        DatasetNew { convert_to_csv, ..self }
    }

    /// Set the archive mode, builder style.
    pub fn archive_mode(self, archive_mode: ArchiveMode) -> (r: Self)
        ensures
            r == (DatasetNew { archive_mode, ..self }),
    {
        DatasetNew { archive_mode, ..self }
    }

    /// Set the dataset folder, builder style.
    pub fn dataset_folder(self, dataset_folder: String) -> (r: Self)
        ensures
            r == (DatasetNew { dataset_folder: Some(dataset_folder), ..self }),
    {
        DatasetNew { dataset_folder: Some(dataset_folder), ..self }
    }
}

/// A create request: everything the create endpoint needs, built once after
/// all uploads succeed.
#[derive(Debug, Clone)]
pub struct DatasetNewRequest {
    /// The title of the new dataset
    pub title: String,
    /// The slug that the dataset should be created with
    pub slug: Option<String>,
    /// The owner's username
    pub owner_slug: Option<String>,
    /// The license that should be associated with the dataset
    pub license_name: Option<String>,
    /// The subtitle to be set on the dataset
    pub subtitle: Option<String>,
    /// The description to be set on the dataset
    pub description: Option<String>,
    /// A list of files that should be associated with the dataset
    pub files: Vec<DatasetUploadFile>,
    /// Whether or not the dataset should be private
    pub is_private: bool,
    /// Whether or not a tabular dataset should be converted to csv
    pub convert_to_csv: bool,
    /// A list of tag IDs to associated with the dataset
    pub category_ids: Vec<String>,
}

impl DatasetNewRequest {
    /// Start building a create request with the given title.
    pub fn builder(title: String) -> (r: DatasetNewRequestBuilder)
        ensures
            DatasetNewRequestBuilder::is_fresh(r, title),
    {
        DatasetNewRequestBuilder::new(title)
    }

    /// The title.
    pub fn title(&self) -> (r: &String)
        ensures
            r == &self.title,
    {
        &self.title
    }

    /// The slug.
    pub fn slug(&self) -> (r: Option<&String>)
        ensures
            match r {
                Some(v) => self.slug == Some(*v),
                None => self.slug is None,
            },
    {
        self.slug.as_ref()
    }

    /// The owner's username.
    pub fn owner_slug(&self) -> (r: Option<&String>)
        ensures
            match r {
                Some(v) => self.owner_slug == Some(*v),
                None => self.owner_slug is None,
            },
    {
        self.owner_slug.as_ref()
    }

    /// The license name.
    pub fn license_name(&self) -> (r: Option<&String>)
        ensures
            match r {
                Some(v) => self.license_name == Some(*v),
                None => self.license_name is None,
            },
    {
        self.license_name.as_ref()
    }

    /// The subtitle.
    pub fn subtitle(&self) -> (r: Option<&String>)
        ensures
            match r {
                Some(v) => self.subtitle == Some(*v),
                None => self.subtitle is None,
            },
    {
        self.subtitle.as_ref()
    }

    /// The description.
    pub fn description(&self) -> (r: Option<&String>)
        ensures
            match r {
                Some(v) => self.description == Some(*v),
                None => self.description is None,
            },
    {
        self.description.as_ref()
    }

    /// The uploaded files.
    pub fn files(&self) -> (r: &Vec<DatasetUploadFile>)
        ensures
            r == &self.files,
    {
        &self.files
    }

    /// The privacy flag.
    pub fn is_private(&self) -> (r: bool)
        ensures
            r == self.is_private,
    {
        self.is_private
    }

    /// The convert-to-csv flag.
    pub fn convert_to_csv(&self) -> (r: bool)
        ensures
            r == self.convert_to_csv,
    {
        self.convert_to_csv
    }

    /// The category ids.
    pub fn category_ids(&self) -> (r: &Vec<String>)
        ensures
            r == &self.category_ids,
    {
        &self.category_ids
    }
}

/// A builder for [`DatasetNewRequest`]; new datasets start private and
/// converted to csv unless changed.
#[derive(Debug, Clone)]
pub struct DatasetNewRequestBuilder {
    /// The title of the new dataset
    pub title: String,
    /// The slug that the dataset should be created with
    pub slug: Option<String>,
    /// The owner's username
    pub owner_slug: Option<String>,
    /// The license that should be associated with the dataset
    pub license_name: Option<String>,
    /// The subtitle to be set on the dataset
    pub subtitle: Option<String>,
    /// The description to be set on the dataset
    pub description: Option<String>,
    /// A list of files that should be associated with the dataset
    pub files: Vec<DatasetUploadFile>,
    /// Whether or not the dataset should be private
    pub is_private: bool,
    /// Whether or not a tabular dataset should be converted to csv
    pub convert_to_csv: bool,
    /// A list of tag IDs to associated with the dataset
    pub category_ids: Vec<String>,
}

impl DatasetNewRequestBuilder {
    /// The builder state that `new` starts from: only the title set, no
    /// files, private and converted to csv.
    pub open spec fn is_fresh(r: DatasetNewRequestBuilder, title: String) -> bool {
        &&& r.title == title
        &&& r.slug is None
        &&& r.owner_slug is None
        &&& r.license_name is None
        &&& r.subtitle is None
        &&& r.description is None
        &&& r.files@ == Seq::<DatasetUploadFile>::empty()
        &&& r.is_private == true
        &&& r.convert_to_csv == true
        &&& r.category_ids@ == Seq::<String>::empty()
    }

    /// Start a builder with the given title.
    pub fn new(title: String) -> (r: Self)
        ensures
            Self::is_fresh(r, title),
    {
        let files: Vec<DatasetUploadFile> = Vec::new();
        let category_ids: Vec<String> = Vec::new();
        Self {
            title,
            slug: None,
            owner_slug: None,
            license_name: None,
            subtitle: None,
            description: None,
            files,
            is_private: true,
            convert_to_csv: true,
            category_ids,
        }
    }

    /// Set the slug.
    pub fn slug(self, slug: &str) -> (r: Self)
        ensures
            r.slug matches Some(s) && s@ == slug@,
            r == (DatasetNewRequestBuilder { slug: r.slug, ..self }),
    {
        DatasetNewRequestBuilder { slug: Some(slug.to_owned()), ..self }
    }

    /// Set the owner's username.
    pub fn owner_slug(self, owner_slug: &str) -> (r: Self)
        ensures
            r.owner_slug matches Some(s) && s@ == owner_slug@,
            r == (DatasetNewRequestBuilder { owner_slug: r.owner_slug, ..self }),
    {
        DatasetNewRequestBuilder { owner_slug: Some(owner_slug.to_owned()), ..self }
    }

    /// Set the license by name.
    pub fn license_name(self, license_name: &str) -> (r: Self)
        ensures
            r.license_name matches Some(s) && s@ == license_name@,
            r == (DatasetNewRequestBuilder { license_name: r.license_name, ..self }),
    {
        DatasetNewRequestBuilder { license_name: Some(license_name.to_owned()), ..self }
    }

    /// Set the license from a license value.
    pub fn license(self, license: License) -> (r: Self)
        ensures
            r.license_name matches Some(s) && s@ == crate::models::license::license_name(
                license,
            ),
            r == (DatasetNewRequestBuilder { license_name: r.license_name, ..self }),
    {
        DatasetNewRequestBuilder { license_name: Some(license.name().to_owned()), ..self }
    }

    /// Set the subtitle.
    pub fn subtitle(self, subtitle: &str) -> (r: Self)
        ensures
            r.subtitle matches Some(s) && s@ == subtitle@,
            r == (DatasetNewRequestBuilder { subtitle: r.subtitle, ..self }),
    {
        DatasetNewRequestBuilder { subtitle: Some(subtitle.to_owned()), ..self }
    }

    /// Set the description.
    pub fn description(self, description: &str) -> (r: Self)
        ensures
            r.description matches Some(s) && s@ == description@,
            r == (DatasetNewRequestBuilder { description: r.description, ..self }),
    {
        DatasetNewRequestBuilder { description: Some(description.to_owned()), ..self }
    }

    /// Replace the uploaded files.
    pub fn files(self, files: Vec<DatasetUploadFile>) -> (r: Self)
        ensures
            r == (DatasetNewRequestBuilder { files, ..self }),
    {
        DatasetNewRequestBuilder { files, ..self }
    }

    /// Append one uploaded file.
    pub fn file(self, file: DatasetUploadFile) -> (r: Self)
        ensures
            r.files@ == self.files@.push(file),
            r == (DatasetNewRequestBuilder { files: r.files, ..self }),
    {
        let mut files = self.files;
        files.push(file);
        DatasetNewRequestBuilder { files, ..self }
    }

    /// Set the privacy flag.
    pub fn with_private(self, is_private: bool) -> (r: Self)
        ensures
            r == (DatasetNewRequestBuilder { is_private, ..self }),
    {
        DatasetNewRequestBuilder { is_private, ..self }
    }

    /// Mark the dataset private.
    pub fn private(self) -> (r: Self)
        ensures
            r == (DatasetNewRequestBuilder { is_private: true, ..self }),
    {
        DatasetNewRequestBuilder { is_private: true, ..self }
    }

    /// Mark the dataset public.
    pub fn public(self) -> (r: Self)
        ensures
            r == (DatasetNewRequestBuilder { is_private: false, ..self }),
    {
        DatasetNewRequestBuilder { is_private: false, ..self }
    }

    /// Set the convert-to-csv flag.
    pub fn convert_to_csv(self, convert_to_csv: bool) -> (r: Self)
        ensures
            r == (DatasetNewRequestBuilder { convert_to_csv, ..self }),
    {
        DatasetNewRequestBuilder { convert_to_csv, ..self }
    }

    /// Replace the category ids.
    pub fn category_ids(self, category_ids: Vec<String>) -> (r: Self)
        ensures
            r == (DatasetNewRequestBuilder { category_ids, ..self }),
    {
        DatasetNewRequestBuilder { category_ids, ..self }
    }

    /// Append one category id.
    pub fn category_id(self, category_id: &str) -> (r: Self)
        ensures
            r.category_ids@.len() == self.category_ids@.len() + 1,
            r.category_ids@ == self.category_ids@.push(r.category_ids@.last()),
            r.category_ids@.last()@ == category_id@,
            r == (DatasetNewRequestBuilder { category_ids: r.category_ids, ..self }),
    {
        let mut category_ids = self.category_ids;
        category_ids.push(category_id.to_owned());
        DatasetNewRequestBuilder { category_ids, ..self }
    }

    /// The request this builder has accumulated.
    pub fn build(self) -> (r: DatasetNewRequest)
        ensures
            r == (DatasetNewRequest {
                title: self.title,
                slug: self.slug,
                owner_slug: self.owner_slug,
                license_name: self.license_name,
                subtitle: self.subtitle,
                description: self.description,
                files: self.files,
                is_private: self.is_private,
                convert_to_csv: self.convert_to_csv,
                category_ids: self.category_ids,
            }),
    {
        DatasetNewRequest {
            title: self.title,
            slug: self.slug,
            owner_slug: self.owner_slug,
            license_name: self.license_name,
            subtitle: self.subtitle,
            description: self.description,
            files: self.files,
            is_private: self.is_private,
            convert_to_csv: self.convert_to_csv,
            category_ids: self.category_ids,
        }
    }
}

} // verus!
