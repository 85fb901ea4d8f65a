//! Column-level metadata attached to an uploaded dataset file.

use vstd::prelude::*;

verus! {

/// Metadata for one column of a tabular dataset file.
///
/// The column ordering hint that the wire format also carries is handled at
/// the serialization boundary outside the library; the publication pipeline
/// never sets it.
#[derive(Debug)]
pub struct DatasetColumn {
    /// The column name
    pub name: Option<String>,
    /// The type of all of the fields in the column, normalized to the
    /// service's type vocabulary
    pub field_type: Option<String>,
    /// The declared type the normalized type was derived from, folded to
    /// lower case
    pub original_type: Option<String>,
    /// The description of the column
    pub description: Option<String>,
}

impl Clone for DatasetColumn {
    /// An exact copy of the column.
    fn clone(&self) -> (r: Self)
        ensures
            r == *self,
    {
        DatasetColumn {
            name: crate::strutil::clone_opt_string(&self.name),
            field_type: crate::strutil::clone_opt_string(&self.field_type),
            original_type: crate::strutil::clone_opt_string(&self.original_type),
            description: crate::strutil::clone_opt_string(&self.description),
        }
    }
}

impl DatasetColumn {
    /// A column with the given name and nothing else set.
    pub fn new(name: String) -> (r: DatasetColumn)
        ensures
            r.name == Some(name),
            r.field_type is None,
            r.original_type is None,
            r.description is None,
    {
        DatasetColumn { name: Some(name), field_type: None, original_type: None, description: None }
    }

    /// Set the column name.
    pub fn set_name(&mut self, name: String)
        ensures
            *final(self) == (DatasetColumn { name: Some(name), ..*old(self) }),
    {
        self.name = Some(name);
    }

    /// Set the column name, builder style.
    pub fn with_name(self, name: String) -> (r: DatasetColumn)
        ensures
            r == (DatasetColumn { name: Some(name), ..self }),
    {
        DatasetColumn { name: Some(name), ..self }
    }

    /// The column name.
    pub fn name(&self) -> (r: Option<&String>)
        ensures
            match r {
                Some(v) => self.name == Some(*v),
                None => self.name is None,
            },
    {
        self.name.as_ref()
    }

    /// Clear the column name.
    pub fn reset_name(&mut self)
        ensures
            *final(self) == (DatasetColumn { name: None, ..*old(self) }),
    {
        self.name = None;
    }

    /// Set the normalized column type.
    pub fn set_type(&mut self, field_type: String)
        ensures
            *final(self) == (DatasetColumn { field_type: Some(field_type), ..*old(self) }),
    {
        self.field_type = Some(field_type);
    }

    /// Set the normalized column type, builder style.
    pub fn with_type(self, field_type: String) -> (r: DatasetColumn)
        ensures
            r == (DatasetColumn { field_type: Some(field_type), ..self }),
    {
        DatasetColumn { field_type: Some(field_type), ..self }
    }

    /// The normalized column type.
    pub fn get_type(&self) -> (r: Option<&String>)
        ensures
            match r {
                Some(v) => self.field_type == Some(*v),
                None => self.field_type is None,
            },
    {
        self.field_type.as_ref()
    }

    /// Clear the normalized column type.
    pub fn reset_type(&mut self)
        ensures
            *final(self) == (DatasetColumn { field_type: None, ..*old(self) }),
    {
        self.field_type = None;
    }

    /// Set the declared type the normalized type was derived from.
    pub fn set_original_type(&mut self, original_type: String)
        ensures
            *final(self) == (DatasetColumn { original_type: Some(original_type), ..*old(self) }),
    {
        self.original_type = Some(original_type);
    }

    /// Set the declared type, builder style.
    pub fn with_original_type(self, original_type: String) -> (r: DatasetColumn)
        ensures
            r == (DatasetColumn { original_type: Some(original_type), ..self }),
    {
        DatasetColumn { original_type: Some(original_type), ..self }
    }

    /// The declared type the normalized type was derived from.
    pub fn original_type(&self) -> (r: Option<&String>)
        ensures
            match r {
                Some(v) => self.original_type == Some(*v),
                None => self.original_type is None,
            },
    {
        self.original_type.as_ref()
    }

    /// Clear the declared type.
    pub fn reset_original_type(&mut self)
        ensures
            *final(self) == (DatasetColumn { original_type: None, ..*old(self) }),
    {
        self.original_type = None;
    }

    /// Set the column description.
    pub fn set_description(&mut self, description: String)
        ensures
            *final(self) == (DatasetColumn { description: Some(description), ..*old(self) }),
    {
        self.description = Some(description);
    }

    /// Set the column description, builder style.
    pub fn with_description(self, description: String) -> (r: DatasetColumn)
        ensures
            r == (DatasetColumn { description: Some(description), ..self }),
    {
        DatasetColumn { description: Some(description), ..self }
    }

    /// The column description.
    pub fn description(&self) -> (r: Option<&String>)
        ensures
            match r {
                Some(v) => self.description == Some(*v),
                None => self.description is None,
            },
    {
        self.description.as_ref()
    }

    /// Clear the column description.
    pub fn reset_description(&mut self)
        ensures
            *final(self) == (DatasetColumn { description: None, ..*old(self) }),
    {
        self.description = None;
    }
}

} // verus!
