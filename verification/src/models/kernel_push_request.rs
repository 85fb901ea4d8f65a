//! The request body for pushing a new kernel version.

use vstd::prelude::*;

use crate::query::{PushKernelType, PushLanguageType};

verus! {

/// A kernel push: the source text together with the identity and settings of
/// the kernel being created or updated.
#[derive(Debug, Clone)]
pub struct KernelPushRequest {
    /// The kernel's ID number. One of `id` and `slug` are required. If both
    /// are specified, `id` will be preferred
    pub id: Option<i32>,
    /// The full slug of the kernel to push to. One of `id` and `slug` are
    /// required. If both are specified, `id` will be preferred
    pub slug: Option<String>,
    /// The title to be set on the kernel
    pub new_title: Option<String>,
    /// The kernel's source code
    pub text: String,
    /// The language that the kernel is written in
    pub language: Option<PushLanguageType>,
    /// The type of kernel. Cannot be changed once the kernel has been created
    pub kernel_type: Option<PushKernelType>,
    /// Whether or not the kernel should be private
    pub is_private: Option<bool>,
    /// Whether or not the kernel should run on a GPU
    pub enable_gpu: Option<bool>,
    /// Whether or not the kernel should be able to access the internet
    pub enable_internet: Option<bool>,
    /// A list of dataset data sources that the kernel should use
    pub dataset_data_sources: Option<Vec<String>>,
    /// A list of competition data sources that the kernel should use
    pub competition_data_sources: Option<Vec<String>>,
    /// A list of kernel data sources that the kernel should use
    pub kernel_data_sources: Option<Vec<String>>,
    /// A list of tag IDs to associated with the dataset
    pub category_ids: Option<Vec<String>>,
}

impl KernelPushRequest {
    /// A push request holding only the source text.
    pub fn new(text: String) -> (r: Self)
        ensures
            r.text == text,
            r.id is None,
            r.slug is None,
            r.new_title is None,
            r.language is None,
            r.kernel_type is None,
            r.is_private is None,
            r.enable_gpu is None,
            r.enable_internet is None,
            r.dataset_data_sources is None,
            r.competition_data_sources is None,
            r.kernel_data_sources is None,
            r.category_ids is None,
    {
        KernelPushRequest {
            id: None,
            slug: None,
            new_title: None,
            text,
            language: None,
            kernel_type: None,
            is_private: None,
            enable_gpu: None,
            enable_internet: None,
            dataset_data_sources: None,
            competition_data_sources: None,
            kernel_data_sources: None,
            category_ids: None,
        }
    }

    /// Set the kernel id.
    pub fn set_id(&mut self, id: i32)
        ensures
            *final(self) == (KernelPushRequest { id: Some(id), ..*old(self) }),
    {
        self.id = Some(id);
    }

    /// Set the kernel id, builder style.
    pub fn with_id(self, id: i32) -> (r: Self)
        ensures
            r == (KernelPushRequest { id: Some(id), ..self }),
    {
        KernelPushRequest { id: Some(id), ..self }
    }

    /// The kernel id.
    pub fn id(&self) -> (r: Option<&i32>)
        ensures
            match r {
                Some(v) => self.id == Some(*v),
                None => self.id is None,
            },
    {
        self.id.as_ref()
    }

    /// Clear the kernel id.
    pub fn reset_id(&mut self)
        ensures
            *final(self) == (KernelPushRequest { id: None, ..*old(self) }),
    {
        self.id = None;
    }

    /// Set the kernel slug.
    pub fn set_slug(&mut self, slug: String)
        ensures
            *final(self) == (KernelPushRequest { slug: Some(slug), ..*old(self) }),
    {
        self.slug = Some(slug);
    }

    /// Set the kernel slug, builder style.
    pub fn with_slug(self, slug: String) -> (r: Self)
        ensures
            r == (KernelPushRequest { slug: Some(slug), ..self }),
    {
        KernelPushRequest { slug: Some(slug), ..self }
    }

    /// The kernel slug.
    pub fn slug(&self) -> (r: Option<&String>)
        ensures
            match r {
                Some(v) => self.slug == Some(*v),
                None => self.slug is None,
            },
    {
        self.slug.as_ref()
    }

    /// Clear the kernel slug.
    pub fn reset_slug(&mut self)
        ensures
            *final(self) == (KernelPushRequest { slug: None, ..*old(self) }),
    {
        self.slug = None;
    }

    /// Set the title.
    pub fn set_new_title(&mut self, new_title: String)
        ensures
            *final(self) == (KernelPushRequest { new_title: Some(new_title), ..*old(self) }),
    {
        self.new_title = Some(new_title);
    }

    /// Set the title, builder style.
    pub fn with_new_title(self, new_title: String) -> (r: Self)
        ensures
            r == (KernelPushRequest { new_title: Some(new_title), ..self }),
    {
        KernelPushRequest { new_title: Some(new_title), ..self }
    }

    /// The title.
    pub fn new_title(&self) -> (r: Option<&String>)
        ensures
            match r {
                Some(v) => self.new_title == Some(*v),
                None => self.new_title is None,
            },
    {
        self.new_title.as_ref()
    }

    /// Clear the title.
    pub fn reset_new_title(&mut self)
        ensures
            *final(self) == (KernelPushRequest { new_title: None, ..*old(self) }),
    {
        self.new_title = None;
    }

    /// Replace the source text.
    pub fn set_text(&mut self, text: String)
        ensures
            *final(self) == (KernelPushRequest { text, ..*old(self) }),
    {
        self.text = text;
    }

    /// Replace the source text, builder style.
    pub fn with_text(self, text: String) -> (r: Self)
        ensures
            r == (KernelPushRequest { text, ..self }),
    {
        KernelPushRequest { text, ..self }
    }

    /// The source text.
    pub fn text(&self) -> (r: &String)
        ensures
            r == &self.text,
    {
        &self.text
    }

    /// Set the language.
    pub fn set_language(&mut self, language: PushLanguageType)
        ensures
            *final(self) == (KernelPushRequest { language: Some(language), ..*old(self) }),
    {
        self.language = Some(language);
    }

    /// Set the language, builder style.
    pub fn with_language(self, language: PushLanguageType) -> (r: Self)
        ensures
            r == (KernelPushRequest { language: Some(language), ..self }),
    {
        KernelPushRequest { language: Some(language), ..self }
    }

    /// The language.
    pub fn language(&self) -> (r: Option<&PushLanguageType>)
        ensures
            match r {
                Some(v) => self.language == Some(*v),
                None => self.language is None,
            },
    {
        self.language.as_ref()
    }

    /// Set the kernel type.
    pub fn set_kernel_type(&mut self, kernel_type: PushKernelType)
        ensures
            *final(self) == (KernelPushRequest { kernel_type: Some(kernel_type), ..*old(self) }),
    {
        self.kernel_type = Some(kernel_type);
    }

    /// Set the kernel type, builder style.
    pub fn with_kernel_type(self, kernel_type: PushKernelType) -> (r: Self)
        ensures
            r == (KernelPushRequest { kernel_type: Some(kernel_type), ..self }),
    {
        KernelPushRequest { kernel_type: Some(kernel_type), ..self }
    }

    /// The kernel type.
    pub fn kernel_type(&self) -> (r: Option<&PushKernelType>)
        ensures
            match r {
                Some(v) => self.kernel_type == Some(*v),
                None => self.kernel_type is None,
            },
    {
        self.kernel_type.as_ref()
    }

    /// Set the privacy flag.
    pub fn set_is_private(&mut self, is_private: bool)
        ensures
            *final(self) == (KernelPushRequest { is_private: Some(is_private), ..*old(self) }),
    {
        self.is_private = Some(is_private);
    }

    /// Set the privacy flag, builder style.
    pub fn with_is_private(self, is_private: bool) -> (r: Self)
        ensures
            r == (KernelPushRequest { is_private: Some(is_private), ..self }),
    {
        KernelPushRequest { is_private: Some(is_private), ..self }
    }

    /// The privacy flag.
    pub fn is_private(&self) -> (r: Option<&bool>)
        ensures
            match r {
                Some(v) => self.is_private == Some(*v),
                None => self.is_private is None,
            },
    {
        self.is_private.as_ref()
    }

    /// Clear the privacy flag.
    pub fn reset_is_private(&mut self)
        ensures
            *final(self) == (KernelPushRequest { is_private: None, ..*old(self) }),
    {
        self.is_private = None;
    }

    /// Set the GPU flag.
    pub fn set_enable_gpu(&mut self, enable_gpu: bool)
        ensures
            *final(self) == (KernelPushRequest { enable_gpu: Some(enable_gpu), ..*old(self) }),
    {
        self.enable_gpu = Some(enable_gpu);
    }

    /// Set the GPU flag, builder style.
    pub fn with_enable_gpu(self, enable_gpu: bool) -> (r: Self)
        ensures
            r == (KernelPushRequest { enable_gpu: Some(enable_gpu), ..self }),
    {
        KernelPushRequest { enable_gpu: Some(enable_gpu), ..self }
    }

    /// The GPU flag.
    pub fn enable_gpu(&self) -> (r: Option<&bool>)
        ensures
            match r {
                Some(v) => self.enable_gpu == Some(*v),
                None => self.enable_gpu is None,
            },
    {
        self.enable_gpu.as_ref()
    }

    /// Clear the GPU flag.
    pub fn reset_enable_gpu(&mut self)
        ensures
            *final(self) == (KernelPushRequest { enable_gpu: None, ..*old(self) }),
    {
        self.enable_gpu = None;
    }

    /// Set the internet flag.
    pub fn set_enable_internet(&mut self, enable_internet: bool)
        ensures
            *final(self) == (KernelPushRequest {
                enable_internet: Some(enable_internet),
                ..*old(self)
            }),
    {
        self.enable_internet = Some(enable_internet);
    }

    /// Set the internet flag, builder style.
    pub fn with_enable_internet(self, enable_internet: bool) -> (r: Self)
        ensures
            r == (KernelPushRequest { enable_internet: Some(enable_internet), ..self }),
    {
        KernelPushRequest { enable_internet: Some(enable_internet), ..self }
    }

    /// The internet flag.
    pub fn enable_internet(&self) -> (r: Option<&bool>)
        ensures
            match r {
                Some(v) => self.enable_internet == Some(*v),
                None => self.enable_internet is None,
            },
    {
        self.enable_internet.as_ref()
    }

    /// Clear the internet flag.
    pub fn reset_enable_internet(&mut self)
        ensures
            *final(self) == (KernelPushRequest { enable_internet: None, ..*old(self) }),
    {
        self.enable_internet = None;
    }

    /// Replace the dataset data sources.
    pub fn set_dataset_data_sources(&mut self, dataset_data_sources: Vec<String>)
        ensures
            *final(self) == (KernelPushRequest {
                dataset_data_sources: Some(dataset_data_sources),
                ..*old(self)
            }),
    {
        self.dataset_data_sources = Some(dataset_data_sources);
    }

    /// Replace the dataset data sources, builder style.
    pub fn with_dataset_data_sources(self, dataset_data_sources: Vec<String>) -> (r: Self)
        ensures
            r == (KernelPushRequest {
                dataset_data_sources: Some(dataset_data_sources),
                ..self
            }),
    {
        KernelPushRequest { dataset_data_sources: Some(dataset_data_sources), ..self }
    }

    /// The dataset data sources.
    pub fn dataset_data_sources(&self) -> (r: Option<&Vec<String>>)
        ensures
            match r {
                Some(v) => self.dataset_data_sources == Some(*v),
                None => self.dataset_data_sources is None,
            },
    {
        self.dataset_data_sources.as_ref()
    }

    /// Clear the dataset data sources.
    pub fn reset_dataset_data_sources(&mut self)
        ensures
            *final(self) == (KernelPushRequest { dataset_data_sources: None, ..*old(self) }),
    {
        self.dataset_data_sources = None;
    }

    /// Replace the competition data sources.
    pub fn set_competition_data_sources(&mut self, competition_data_sources: Vec<String>)
        ensures
            *final(self) == (KernelPushRequest {
                competition_data_sources: Some(competition_data_sources),
                ..*old(self)
            }),
    {
        self.competition_data_sources = Some(competition_data_sources);
    }

    /// Replace the competition data sources, builder style.
    pub fn with_competition_data_sources(self, competition_data_sources: Vec<String>) -> (r: Self)
        ensures
            r == (KernelPushRequest {
                competition_data_sources: Some(competition_data_sources),
                ..self
            }),
    {
        KernelPushRequest { competition_data_sources: Some(competition_data_sources), ..self }
    }

    /// The competition data sources.
    pub fn competition_data_sources(&self) -> (r: Option<&Vec<String>>)
        ensures
            match r {
                Some(v) => self.competition_data_sources == Some(*v),
                None => self.competition_data_sources is None,
            },
    {
        self.competition_data_sources.as_ref()
    }

    /// Clear the competition data sources.
    pub fn reset_competition_data_sources(&mut self)
        ensures
            *final(self) == (KernelPushRequest { competition_data_sources: None, ..*old(self) }),
    {
        self.competition_data_sources = None;
    }

    /// Replace the kernel data sources.
    pub fn set_kernel_data_sources(&mut self, kernel_data_sources: Vec<String>)
        ensures
            *final(self) == (KernelPushRequest {
                kernel_data_sources: Some(kernel_data_sources),
                ..*old(self)
            }),
    {
        self.kernel_data_sources = Some(kernel_data_sources);
    }

    /// Replace the kernel data sources, builder style.
    pub fn with_kernel_data_sources(self, kernel_data_sources: Vec<String>) -> (r: Self)
        ensures
            r == (KernelPushRequest {
                kernel_data_sources: Some(kernel_data_sources),
                ..self
            }),
    {
        KernelPushRequest { kernel_data_sources: Some(kernel_data_sources), ..self }
    }

    /// The kernel data sources.
    pub fn kernel_data_sources(&self) -> (r: Option<&Vec<String>>)
        ensures
            match r {
                Some(v) => self.kernel_data_sources == Some(*v),
                None => self.kernel_data_sources is None,
            },
    {
        self.kernel_data_sources.as_ref()
    }

    /// Clear the kernel data sources.
    pub fn reset_kernel_data_sources(&mut self)
        ensures
            *final(self) == (KernelPushRequest { kernel_data_sources: None, ..*old(self) }),
    {
        self.kernel_data_sources = None;
    }

    /// Replace the category ids.
    pub fn set_category_ids(&mut self, category_ids: Vec<String>)
        ensures
            *final(self) == (KernelPushRequest {
                category_ids: Some(category_ids),
                ..*old(self)
            }),
    {
        self.category_ids = Some(category_ids);
    }

    /// Replace the category ids, builder style.
    pub fn with_category_ids(self, category_ids: Vec<String>) -> (r: Self)
        ensures
            r == (KernelPushRequest { category_ids: Some(category_ids), ..self }),
    {
        KernelPushRequest { category_ids: Some(category_ids), ..self }
    }

    /// The category ids.
    pub fn category_ids(&self) -> (r: Option<&Vec<String>>)
        ensures
            match r {
                Some(v) => self.category_ids == Some(*v),
                None => self.category_ids is None,
            },
    {
        self.category_ids.as_ref()
    }

    /// Clear the category ids.
    pub fn reset_category_ids(&mut self)
        ensures
            *final(self) == (KernelPushRequest { category_ids: None, ..*old(self) }),
    {
        self.category_ids = None;
    }
}

} // verus!
