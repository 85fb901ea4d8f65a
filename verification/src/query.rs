//! Enumerated query parameters accepted by the list endpoints, and the
//! kernel type/language vocabulary.

use vstd::prelude::*;

verus! {

/// The kind of kernel being pushed.
#[derive(Debug, Clone, Copy, PartialEq, Eq, Structural)]
pub enum PushKernelType {
    Script,
    Notebook,
}

/// The language a pushed kernel is written in.
#[derive(Debug, Clone, Copy, PartialEq, Eq, Structural)]
pub enum PushLanguageType {
    Python,
    R,
    Rmarkdown,
}

/// A kernel language filter for list queries.
#[derive(Debug, Clone, Copy, PartialEq, Eq, Structural)]
pub enum Language {
    All,
    Python,
    R,
    Sqlite,
    Julia,
    Rmarkdown,
}

/// The file extension a kernel of the given type and language is stored
/// under, when the service defines one for the combination.
pub open spec fn spec_file_extension(t: PushKernelType, language: Language) -> Option<Seq<char>> {
    match t {
        PushKernelType::Script => match language {
            Language::Python => Some(".py"@),
            Language::R => Some(".r"@),
            Language::Sqlite => Some(".sqlite"@),
            Language::Julia => Some(".jl"@),
            Language::Rmarkdown => Some(".Rmd"@),
            Language::All => None,
        },
        PushKernelType::Notebook => match language {
            Language::Python => Some(".ipynb"@),
            Language::R => Some(".irnb"@),
            Language::Julia => Some(".ijlnb"@),
            _ => None,
        },
    }
}

impl PushKernelType {
    /// The file extension for a kernel of this type in the given language.
    pub fn file_extension(&self, language: &Language) -> (r: Option<&'static str>)
        ensures
            match r {
                Some(e) => spec_file_extension(*self, *language) == Some(e@),
                None => spec_file_extension(*self, *language) is None,
            },
    {
        match self {
            PushKernelType::Script => match language {
                Language::Python => Some(".py"),
                Language::R => Some(".r"),
                Language::Sqlite => Some(".sqlite"),
                Language::Julia => Some(".jl"),
                Language::Rmarkdown => Some(".Rmd"),
                Language::All => None,
            },
            PushKernelType::Notebook => match language {
                Language::Python => Some(".ipynb"),
                Language::R => Some(".irnb"),
                Language::Julia => Some(".ijlnb"),
                _ => None,
            },
        }
    }
}

/// A kernel type filter for list queries.
#[derive(Debug, Clone, Copy, PartialEq, Eq, Structural)]
pub enum KernelType {
    All,
    Script,
    Notebook,
}

/// An output type filter for kernel list queries.
#[derive(Debug, Clone, Copy, PartialEq, Eq, Structural)]
pub enum OutputType {
    All,
    Visualization,
    Data,
}

/// How to sort a list result.
#[derive(Debug, Clone, Copy, PartialEq, Eq, Structural)]
pub enum SortBy {
    Hotness,
    CommentCount,
    DateCreated,
    DateRun,
    Relevance,
    ScoreAscending,
    ScoreDescending,
    ViewCount,
    VoteCount,
}

/// Which group of competitions to list.
#[derive(Debug, Clone, Copy, PartialEq, Eq, Structural)]
pub enum CompetitionGroup {
    General,
    Entered,
    InClass,
}

/// A competition category filter.
#[derive(Debug, Clone, Copy, PartialEq, Eq, Structural)]
pub enum CompetitionCategory {
    All,
    Featured,
    Research,
    Recruitment,
    GettingStarted,
    Masters,
    Playground,
}

/// How to sort a competition list.
#[derive(Debug, Clone, Copy, PartialEq, Eq, Structural)]
pub enum CompetitionSortBy {
    Grouped,
    Prize,
    EarliestDeadline,
    LatestDeadline,
    NumberOfTeams,
    RecentlyCreated,
}

/// A dataset file format filter.
#[derive(Debug, Clone, Copy, PartialEq, Eq, Structural)]
pub enum DatasetFileType {
    All,
    Csv,
    Sqlite,
    Json,
    BigQuery,
}

/// A dataset license filter.
#[derive(Debug, Clone, Copy, PartialEq, Eq, Structural)]
pub enum DatasetLicenseName {
    All,
    Cc,
    Gpl,
    Odb,
    Other,
}

/// How to sort a dataset list.
#[derive(Debug, Clone, Copy, PartialEq, Eq, Structural)]
pub enum DatasetSortBy {
    Hottest,
    Votes,
    Updated,
    Active,
    Published,
}

/// Whose kernels to list.
#[derive(Debug, Clone, Copy, PartialEq, Eq, Structural)]
pub enum Group {
    Everyone,
    Profile,
}

/// Whose datasets to list.
#[derive(Debug, Clone, Copy, PartialEq, Eq, Structural)]
pub enum DatasetGroup {
    Public,
    My,
    User,
}

impl Default for Language {
    /// The default language filter lists every language.
    fn default() -> (r: Self)
        ensures
            r == Language::All,
    {
        Language::All
    }
}

impl Default for KernelType {
    /// The default kernel type filter lists every type.
    fn default() -> (r: Self)
        ensures
            r == KernelType::All,
    {
        KernelType::All
    }
}

impl Default for OutputType {
    /// The default output type filter lists every output.
    fn default() -> (r: Self)
        ensures
            r == OutputType::All,
    {
        OutputType::All
    }
}

impl Default for SortBy {
    /// Lists are sorted by hotness unless asked otherwise.
    fn default() -> (r: Self)
        ensures
            r == SortBy::Hotness,
    {
        SortBy::Hotness
    }
}

impl Default for CompetitionGroup {
    /// The default competition group is the general one.
    fn default() -> (r: Self)
        ensures
            r == CompetitionGroup::General,
    {
        CompetitionGroup::General
    }
}

impl Default for CompetitionCategory {
    /// The default competition category filter lists every category.
    fn default() -> (r: Self)
        ensures
            r == CompetitionCategory::All,
    {
        CompetitionCategory::All
    }
}

impl Default for CompetitionSortBy {
    /// Competitions are sorted by latest deadline unless asked otherwise.
    fn default() -> (r: Self)
        ensures
            r == CompetitionSortBy::LatestDeadline,
    {
        CompetitionSortBy::LatestDeadline
    }
}

impl Default for DatasetFileType {
    /// The default file type filter lists every format.
    fn default() -> (r: Self)
        ensures
            r == DatasetFileType::All,
    {
        DatasetFileType::All
    }
}

impl Default for DatasetLicenseName {
    /// The default license filter lists every license.
    fn default() -> (r: Self)
        ensures
            r == DatasetLicenseName::All,
    {
        DatasetLicenseName::All
    }
}

impl Default for Group {
    /// Kernels of every user are listed unless asked otherwise.
    fn default() -> (r: Self)
        ensures
            r == Group::Everyone,
    {
        Group::Everyone
    }
}

impl Default for DatasetGroup {
    /// Public datasets are listed unless asked otherwise.
    fn default() -> (r: Self)
        ensures
            r == DatasetGroup::Public,
    {
        DatasetGroup::Public
    }
}

} // verus!
