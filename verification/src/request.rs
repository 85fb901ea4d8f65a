//! The parameter sets of the list endpoints and of kernel pulls, with
//! builder-style methods. Their serialization into query strings happens at
//! the transport boundary outside the library.

use vstd::prelude::*;

use crate::query::{
    CompetitionCategory, CompetitionGroup, CompetitionSortBy, DatasetFileType, DatasetGroup,
    DatasetLicenseName, Group, KernelType, Language, OutputType, SortBy,
};

verus! {

/// The parameters of a competition list query.
#[derive(Debug, Clone)]
pub struct CompetitionsList {
    /// Group to filter result to
    pub group: Option<CompetitionGroup>,
    /// Category to filter result to
    pub category: Option<CompetitionCategory>,
    /// How to sort the result
    pub sort_by: Option<CompetitionSortBy>,
    /// The page to return.
    pub page: usize,
    /// Search term to use (default is empty string)
    pub search: Option<String>,
}

impl CompetitionsList {
    /// A query for the given page with no filters set.
    pub fn new(page: usize) -> (r: Self)
        ensures
            r.group is None,
            r.category is None,
            r.sort_by is None,
            r.page == page,
            r.search is None,
    {
        Self { group: None, category: None, sort_by: None, page, search: None }
    }

    /// Filter to a competition group.
    pub fn group(self, group: CompetitionGroup) -> (r: Self)
        ensures
            r == (CompetitionsList { group: Some(group), ..self }),
    {
        CompetitionsList { group: Some(group), ..self }
    }

    /// Filter to a category.
    pub fn category(self, category: CompetitionCategory) -> (r: Self)
        ensures
            r == (CompetitionsList { category: Some(category), ..self }),
    {
        CompetitionsList { category: Some(category), ..self }
    }

    /// Sort the result.
    pub fn sort_by(self, sort_by: CompetitionSortBy) -> (r: Self)
        ensures
            r == (CompetitionsList { sort_by: Some(sort_by), ..self }),
    {
        CompetitionsList { sort_by: Some(sort_by), ..self }
    }

    /// Set the search term.
    pub fn search(self, search: &str) -> (r: Self)
        ensures
            r.search matches Some(s) && s@ == search@,
            r == (CompetitionsList { search: r.search, ..self }),
    {
        CompetitionsList { search: Some(search.to_owned()), ..self }
    }
}

impl Default for CompetitionsList {
    /// The default query lists the first page, unfiltered.
    fn default() -> (r: Self)
        ensures
            r.group is None,
            r.category is None,
            r.sort_by is None,
            r.page == 1,
            r.search is None,
    {
        Self::new(1)
    }
}

/// The parameters of a kernel list query.
#[derive(Debug, Clone)]
pub struct KernelsList {
    /// The page to return.
    pub page: usize,
    /// Results per page, defaults to 20
    pub page_size: usize,
    /// Filter to this dataset
    pub dataset: Option<String>,
    /// Filter to this competition
    pub competition: Option<String>,
    /// Filter to those with specified parent
    pub parent_kernel: Option<String>,
    /// A custom search string to pass to the list query
    pub search: Option<String>,
    /// What kind of kernels to return
    pub group: Group,
    /// Filter results to a specific user
    pub user: Option<String>,
    /// The programming language of the kernel
    pub language: Language,
    /// The type of kernel
    pub kernel_type: KernelType,
    /// The output type
    pub output_type: OutputType,
    /// Sort results by this string
    pub sort_by: SortBy,
}

impl KernelsList {
    /// A query for the given page with the default page size and no filters.
    pub fn with_page(page: usize) -> (r: Self)
        ensures
            r.page == page,
            r.page_size == 20,
            r.dataset is None,
            r.competition is None,
            r.parent_kernel is None,
            r.search is None,
            r.group == Group::Everyone,
            r.user is None,
            r.language == Language::All,
            r.kernel_type == KernelType::All,
            r.output_type == OutputType::All,
            r.sort_by == SortBy::Hotness,
    {
        Self {
            page,
            page_size: 20,
            dataset: None,
            competition: None,
            parent_kernel: None,
            search: None,
            group: Group::Everyone,
            user: None,
            language: Language::All,
            kernel_type: KernelType::All,
            output_type: OutputType::All,
            sort_by: SortBy::Hotness,
        }
    }

    /// Set the page size.
    pub fn page_size(self, page_size: usize) -> (r: Self)
        ensures
            r == (KernelsList { page_size, ..self }),
    {
        KernelsList { page_size, ..self }
    }

    /// Choose whose kernels are listed.
    pub fn mine(self, group: Group) -> (r: Self)
        ensures
            r == (KernelsList { group, ..self }),
    {
        KernelsList { group, ..self }
    }

    /// Filter to a dataset.
    pub fn dataset(self, dataset: &str) -> (r: Self)
        ensures
            r.dataset matches Some(s) && s@ == dataset@,
            r == (KernelsList { dataset: r.dataset, ..self }),
    {
        KernelsList { dataset: Some(dataset.to_owned()), ..self }
    }

    /// Filter to a competition.
    pub fn competition(self, competition: &str) -> (r: Self)
        ensures
            r.competition matches Some(s) && s@ == competition@,
            r == (KernelsList { competition: r.competition, ..self }),
    {
        KernelsList { competition: Some(competition.to_owned()), ..self }
    }

    /// Filter to kernels with the given parent.
    pub fn parent_kernel(self, parent_kernel: &str) -> (r: Self)
        ensures
            r.parent_kernel matches Some(s) && s@ == parent_kernel@,
            r == (KernelsList { parent_kernel: r.parent_kernel, ..self }),
    {
        KernelsList { parent_kernel: Some(parent_kernel.to_owned()), ..self }
    }

    /// Set the search term.
    pub fn search(self, search: &str) -> (r: Self)
        ensures
            r.search matches Some(s) && s@ == search@,
            r == (KernelsList { search: r.search, ..self }),
    {
        KernelsList { search: Some(search.to_owned()), ..self }
    }

    /// Filter to a user.
    pub fn user(self, user: &str) -> (r: Self)
        ensures
            r.user matches Some(s) && s@ == user@,
            r == (KernelsList { user: r.user, ..self }),
    {
        KernelsList { user: Some(user.to_owned()), ..self }
    }

    /// Filter to a language.
    pub fn language(self, language: Language) -> (r: Self)
        ensures
            r == (KernelsList { language, ..self }),
    {
        KernelsList { language, ..self }
    }

    /// Filter to a kernel type.
    pub fn kernel_type(self, kernel_type: KernelType) -> (r: Self)
        ensures
            r == (KernelsList { kernel_type, ..self }),
    {
        KernelsList { kernel_type, ..self }
    }

    /// Filter to an output type.
    pub fn output_type(self, output_type: OutputType) -> (r: Self)
        ensures
            r == (KernelsList { output_type, ..self }),
    {
        KernelsList { output_type, ..self }
    }

    /// Sort the result.
    pub fn sort_by(self, sort_by: SortBy) -> (r: Self)
        ensures
            r == (KernelsList { sort_by, ..self }),
    {
        KernelsList { sort_by, ..self }
    }
}

impl Default for KernelsList {
    /// The default query lists the first page with the default page size.
    fn default() -> (r: Self)
        ensures
            r.page == 1,
            r.page_size == 20,
            r.dataset is None,
            r.competition is None,
            r.parent_kernel is None,
            r.search is None,
            r.group == Group::Everyone,
            r.user is None,
            r.language == Language::All,
            r.kernel_type == KernelType::All,
            r.output_type == OutputType::All,
            r.sort_by == SortBy::Hotness,
    {
        Self::with_page(1)
    }
}

/// The parameters of a dataset list query.
#[derive(Debug, Clone)]
pub struct DatasetsList {
    /// Display datasets by a particular group
    pub group: DatasetGroup,
    /// How to sort the result
    pub sort_by: SortBy,
    /// The file format to filter to
    pub filetype: DatasetFileType,
    /// Tag identifiers to filter the search
    pub tagids: Option<String>,
    /// Descriptor for the license
    pub license: DatasetLicenseName,
    /// Search term to use (default is empty string)
    pub search: Option<String>,
    /// Display datasets by a specific user or organization
    pub user: Option<String>,
    /// The page to return.
    pub page: usize,
    /// The maximum size of the dataset to return
    pub max_size: Option<usize>,
    /// The minimum size of the dataset to return
    pub min_size: Option<usize>,
}

impl DatasetsList {
    /// A query for the given page with no filters set.
    pub fn with_page(page: usize) -> (r: Self)
        ensures
            r.page == page,
            r.group == DatasetGroup::Public,
            r.sort_by == SortBy::Hotness,
            r.filetype == DatasetFileType::All,
            r.tagids is None,
            r.license == DatasetLicenseName::All,
            r.search is None,
            r.user is None,
            r.max_size is None,
            r.min_size is None,
    {
        Self {
            page,
            sort_by: SortBy::Hotness,
            filetype: DatasetFileType::All,
            tagids: None,
            license: DatasetLicenseName::All,
            search: None,
            user: None,
            max_size: None,
            min_size: None,
            group: DatasetGroup::Public,
        }
    }

    /// Set the page.
    pub fn page(self, page: usize) -> (r: Self)
        ensures
            r == (DatasetsList { page, ..self }),
    {
        DatasetsList { page, ..self }
    }

    /// Bound the dataset size from above.
    pub fn max_size(self, max_size: usize) -> (r: Self)
        ensures
            r == (DatasetsList { max_size: Some(max_size), ..self }),
    {
        DatasetsList { max_size: Some(max_size), ..self }
    }

    /// Bound the dataset size from below.
    pub fn min_size(self, min_size: usize) -> (r: Self)
        ensures
            r == (DatasetsList { min_size: Some(min_size), ..self }),
    {
        DatasetsList { min_size: Some(min_size), ..self }
    }

    /// Filter to a file format.
    pub fn file_type(self, file_type: DatasetFileType) -> (r: Self)
        ensures
            r == (DatasetsList { filetype: file_type, ..self }),
    {
        DatasetsList { filetype: file_type, ..self }
    }

    /// Set the search term.
    pub fn search(self, search: &str) -> (r: Self)
        ensures
            r.search matches Some(s) && s@ == search@,
            r == (DatasetsList { search: r.search, ..self }),
    {
        DatasetsList { search: Some(search.to_owned()), ..self }
    }

    /// List the datasets of a specific user or organization.
    pub fn user(self, user: &str) -> (r: Self)
        ensures
            r.user matches Some(s) && s@ == user@,
            r.group == DatasetGroup::User,
            r == (DatasetsList { user: r.user, group: DatasetGroup::User, ..self }),
    {
        DatasetsList { user: Some(user.to_owned()), group: DatasetGroup::User, ..self }
    }

    /// List the authenticated user's own datasets.
    pub fn mine(self) -> (r: Self)
        ensures
            r == (DatasetsList { user: None, group: DatasetGroup::My, ..self }),
    {
        DatasetsList { user: None, group: DatasetGroup::My, ..self }
    }

    /// List public datasets.
    pub fn public(self) -> (r: Self)
        ensures
            r == (DatasetsList { user: None, group: DatasetGroup::Public, ..self }),
    {
        DatasetsList { user: None, group: DatasetGroup::Public, ..self }
    }

    /// Filter to a license.
    pub fn license_name(self, license_name: DatasetLicenseName) -> (r: Self)
        ensures
            r == (DatasetsList { license: license_name, ..self }),
    {
        DatasetsList { license: license_name, ..self }
    }

    /// Sort the result.
    pub fn sort_by(self, sort_by: SortBy) -> (r: Self)
        ensures
            r == (DatasetsList { sort_by, ..self }),
    {
        DatasetsList { sort_by, ..self }
    }

    /// Filter to tag identifiers.
    pub fn tag_ids(self, tag_ids: &str) -> (r: Self)
        ensures
            r.tagids matches Some(s) && s@ == tag_ids@,
            r == (DatasetsList { tagids: r.tagids, ..self }),
    {
        DatasetsList { tagids: Some(tag_ids.to_owned()), ..self }
    }
}

impl Default for DatasetsList {
    /// The default query lists the first page, unfiltered.
    fn default() -> (r: Self)
        ensures
            r.page == 1,
            r.group == DatasetGroup::Public,
            r.sort_by == SortBy::Hotness,
            r.filetype == DatasetFileType::All,
            r.tagids is None,
            r.license == DatasetLicenseName::All,
            r.search is None,
            r.user is None,
            r.max_size is None,
            r.min_size is None,
    {
        Self::with_page(1)
    }
}

/// The parameters of a kernel pull.
#[derive(Debug, Clone)]
pub struct KernelPullRequest {
    /// Whether the kernel's metadata file is written beside the code.
    pub with_metadata: bool,
    /// The kernel's `owner/slug` identifier.
    pub name: String,
    /// Where the pulled files are stored; the download directory when unset.
    pub output: Option<String>,
}

impl KernelPullRequest {
    /// A pull of the named kernel, without metadata, into the default
    /// location.
    pub fn new(name: &str) -> (r: Self)
        ensures
            r.with_metadata == false,
            r.name@ == name@,
            r.output is None,
    {
        Self { with_metadata: false, name: name.to_owned(), output: None }
    }

    /// Choose where the pulled files are stored.
    pub fn output(self, output: &str) -> (r: Self)
        ensures
            r.output matches Some(s) && s@ == output@,
            r == (KernelPullRequest { output: r.output, ..self }),
    {
        KernelPullRequest { output: Some(output.to_owned()), ..self }
    }

    /// Choose whether the metadata file is written too.
    pub fn with_metadata(self, with_metadata: bool) -> (r: Self)
        ensures
            r == (KernelPullRequest { with_metadata, ..self }),
    {
        KernelPullRequest { with_metadata, ..self }
    }
}

} // verus!
