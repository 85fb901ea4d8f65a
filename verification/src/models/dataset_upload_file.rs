//! The descriptor for one successfully uploaded file, handed to the
//! submission assembler.

use vstd::prelude::*;

use crate::models::DatasetColumn;

verus! {

/// An uploaded artifact: the upload token returned by the ticket request,
/// plus the description and column metadata of the matching declared
/// resource.
#[derive(Debug)]
pub struct DatasetUploadFile {
    /// A token referencing a specific file upload that can be used across
    /// requests
    pub token: String,
    /// The file description
    pub description: Option<String>,
    /// A list of dataset column metadata
    pub columns: Vec<DatasetColumn>,
}

impl Clone for DatasetUploadFile {
    /// A copy of the descriptor: the same token, description and columns.
    fn clone(&self) -> (r: Self)
        ensures
            r.token == self.token,
            r.description == self.description,
            r.columns@ == self.columns@,
    {
        let columns = self.columns.clone();
        assert(columns@ =~= self.columns@);
        DatasetUploadFile {
            token: self.token.clone(),
            description: crate::strutil::clone_opt_string(&self.description),
            columns,
        }
    }
}

impl DatasetUploadFile {
    /// A descriptor holding only the upload token.
    pub fn new(token: String) -> (r: Self)
        ensures
            r.token == token,
            r.description is None,
            r.columns@ == Seq::<DatasetColumn>::empty(),
    {
        Self { token, description: None, columns: Vec::new() }
    }

    /// Replace the token, builder style.
    pub fn with_token(self, token: String) -> (r: DatasetUploadFile)
        ensures
            r == (DatasetUploadFile { token, ..self }),
    {
        DatasetUploadFile { token, ..self }
    }

    /// The upload token.
    pub fn token(&self) -> (r: &str)
        ensures
            r@ == self.token@,
    {
        self.token.as_str()
    }

    /// Set the file description.
    pub fn set_description(&mut self, description: String)
        ensures
            *final(self) == (DatasetUploadFile { description: Some(description), ..*old(self) }),
    {
        self.description = Some(description);
    }

    /// Set the file description, builder style.
    pub fn with_description(self, description: String) -> (r: DatasetUploadFile)
        ensures
            r == (DatasetUploadFile { description: Some(description), ..self }),
    {
        DatasetUploadFile { description: Some(description), ..self }
    }

    /// The file description.
    pub fn description(&self) -> (r: Option<&String>)
        ensures
            match r {
                Some(v) => self.description == Some(*v),
                None => self.description is None,
            },
    {
        self.description.as_ref()
    }

    /// Clear the file description.
    pub fn reset_description(&mut self)
        ensures
            *final(self) == (DatasetUploadFile { description: None, ..*old(self) }),
    {
        self.description = None;
    }

    /// Replace the column metadata.
    pub fn set_columns(&mut self, columns: Vec<DatasetColumn>)
        ensures
            *final(self) == (DatasetUploadFile { columns, ..*old(self) }),
    {
        self.columns = columns;
    }

    /// The column metadata.
    pub fn columns(&self) -> (r: &Vec<DatasetColumn>)
        ensures
            r == &self.columns,
    {
        &self.columns
    }
}

} // verus!
