//! The dataset publication flows: validate the metadata locally, upload the
//! planned files strictly one at a time, and only then build and submit the
//! create or new-version request. Validation failures surface before any
//! network step is ever handed out, and the final request is built exactly
//! once, after the last upload.

use vstd::prelude::*;

use crate::archive::ArchiveMode;
use crate::client::spec_parse_identifier;
use crate::error::KaggleError;
use crate::models::extended::FileUploadInfo;
use crate::models::license::license_name;
use crate::models::metadata::{first_bad_resource, Metadata, Resource};
use crate::models::{DatasetNew, DatasetNewRequest, DatasetNewVersionRequest, DatasetUploadFile};
use crate::strutil::str_eq;
use crate::upload::{
    plan_matches, plan_uploads, spec_entry_name, spec_plan_len, upload_descriptor_matches,
    FolderEntry, UploadBatch, UploadPlanItem, UploadStep,
};

verus! {

/// Every structural rule dataset creation enforces before any network call:
/// the identifier parses and neither it nor the title is the template
/// placeholder, exactly one license is declared, the slug and title are 6 to
/// 50 characters, the subtitle when present is 20 to 80, and every declared
/// resource exists on disk under a unique path.
pub open spec fn create_validation_ok(user: Seq<char>, m: Metadata, existing: Seq<String>) -> bool {
    &&& spec_parse_identifier(user, m.id@) matches Some(p) && {
        &&& p.1 != "INSERT_SLUG_HERE"@
        &&& 6 <= p.1.len() <= 50
    }
    &&& m.title@ != "INSERT_SLUG_HERE"@
    &&& m.licenses@.len() == 1
    &&& 6 <= m.title@.len() <= 50
    &&& first_bad_resource(m.resources@, existing) == -1
    &&& match m.subtitle {
        Some(s) => 20 <= s@.len() <= 80,
        None => true,
    }
}

/// Check the dataset-creation rules, returning the parsed owner and slug.
/// Any metadata with more or fewer than exactly one license fails here,
/// before any network call; so does a duplicate or missing resource path.
pub fn validate_dataset_create(user: &str, m: &Metadata, existing: &Vec<String>) -> (r: Result<
    (String, String),
    KaggleError,
>)
    ensures
        r is Ok <==> create_validation_ok(user@, *m, existing@),
        r matches Ok(pair) ==> spec_parse_identifier(user@, m.id@) == Some((pair.0@, pair.1@)),
        r matches Err(e) ==> e is Metadata || e is FileNotFound,
{
    let (owner_slug, dataset_slug) = match crate::client::parse_identifier(user, m.id.as_str()) {
        Ok(pair) => (pair.0.to_owned(), pair.1.to_owned()),
        Err(e) => {
            return Err(e);
        },
    };
    if str_eq(dataset_slug.as_str(), "INSERT_SLUG_HERE") {
        return Err(
            KaggleError::meta("Default slug detected, please change values before uploading"),
        );
    }
    if str_eq(m.title.as_str(), "INSERT_SLUG_HERE") {
        return Err(
            KaggleError::meta("Default title detected, please change values before uploading"),
        );
    }
    if m.licenses.len() != 1 {
        return Err(KaggleError::meta("Please specify exactly one license"));
    }
    let slug_len = dataset_slug.as_str().unicode_len();
    if slug_len < 6 || slug_len > 50 {
        return Err(KaggleError::meta("The dataset slug must be between 6 and 50 characters"));
    }
    let title_len = m.title.as_str().unicode_len();
    if title_len < 6 || title_len > 50 {
        return Err(KaggleError::meta("The dataset title must be between 6 and 50 characters"));
    }
    match m.validate_resource(existing) {
        Ok(_) => {},
        Err(e) => {
            return Err(e);
        },
    }
    match &m.subtitle {
        Some(subtitle) => {
            let sub_len = subtitle.as_str().unicode_len();
            if sub_len < 20 || sub_len > 80 {
                return Err(
                    KaggleError::meta("Subtitle length must be between 20 and 80 characters"),
                );
            }
        },
        None => {},
    }
    Ok((owner_slug, dataset_slug))
}

/// Whether a create request is exactly the one the validated metadata, the
/// flags and the uploaded files induce.
pub open spec fn create_request_matches(
    req: DatasetNewRequest,
    m: Metadata,
    is_private: bool,
    convert_to_csv: bool,
    owner: Seq<char>,
    slug: Seq<char>,
    files: Seq<DatasetUploadFile>,
) -> bool {
    &&& req.title == m.title
    &&& req.slug matches Some(s) && s@ == slug
    &&& req.owner_slug matches Some(o) && o@ == owner
    &&& req.license_name matches Some(l) && m.licenses@.len() > 0 && l@ == license_name(
        m.licenses@[0],
    )
    &&& req.subtitle == m.subtitle
    &&& req.description == Some(m.description)
    &&& req.is_private == is_private
    &&& req.convert_to_csv == convert_to_csv
    &&& req.category_ids@ == m.keywords@
    &&& req.files@ == files
}

/// What the driver of a dataset creation must do next.
#[derive(Debug)]
pub enum CreateStep {
    /// Request an upload ticket for this entry name, then report the granted
    /// ticket.
    RequestTicket { file_name: String },
    /// Send the planned file's bytes to the ticket's URL, then report
    /// completion.
    SendFile { item: UploadPlanItem, url: String },
    /// Every upload is finished: POST this request to the create endpoint.
    /// The response is the flow's result.
    Submit { request: DatasetNewRequest },
}

/// The creation of a brand-new dataset, from local validation through the
/// sequential uploads to the single final create request.
#[derive(Debug)]
pub struct DatasetCreateFlow {
    /// The validated metadata; its resources live in the batch.
    pub metadata: Metadata,
    /// Whether the dataset is created private.
    pub is_private: bool,
    /// Whether tabular files are converted to csv.
    pub convert_to_csv: bool,
    /// The parsed owner of the new dataset.
    pub owner_slug: String,
    /// The parsed slug of the new dataset.
    pub dataset_slug: String,
    /// The sequential upload of the planned files.
    pub batch: UploadBatch,
    /// Whether the final request has been handed out.
    pub submitted: bool,
}

impl DatasetCreateFlow {
    /// The flow's bookkeeping stays consistent: the batch is well formed
    /// and the validated metadata still carries its single license.
    pub open spec fn wf(self) -> bool {
        &&& self.batch.wf()
        &&& self.metadata.licenses@.len() == 1
    }

    /// Validate the configuration and plan the uploads. No network step is
    /// handed out unless every local rule holds; with nothing to upload the
    /// first step is already the final request.
    pub fn start(
        username: &str,
        config: DatasetNew,
        entries: &Vec<FolderEntry>,
        existing: &Vec<String>,
    ) -> (r: Result<(DatasetCreateFlow, CreateStep), KaggleError>)
        ensures
            r is Ok <==> create_validation_ok(username@, config.metadata, existing@),
            config.metadata.licenses@.len() != 1 ==> r is Err,
            r matches Err(e) ==> e is Metadata || e is FileNotFound,
            r matches Ok(pair) ==> {
                let flow = pair.0;
                &&& flow.wf()
                &&& spec_parse_identifier(username@, config.metadata.id@) == Some(
                    (flow.owner_slug@, flow.dataset_slug@),
                )
                &&& flow.is_private == config.is_private
                &&& flow.convert_to_csv == config.convert_to_csv
                &&& plan_matches(flow.batch.plan@, entries@, config.archive_mode)
                &&& flow.batch.resources@ == config.metadata.resources@
                &&& flow.batch.done == 0
                &&& flow.batch.in_flight is None
                &&& flow.batch.uploaded@.len() == 0
                &&& (flow.batch.plan@.len() > 0 ==> {
                    &&& !flow.submitted
                    &&& pair.1 matches CreateStep::RequestTicket { file_name } && file_name@
                        == spec_entry_name(flow.batch.plan@[0])
                })
                &&& (flow.batch.plan@.len() == 0 ==> {
                    &&& flow.submitted
                    &&& pair.1 matches CreateStep::Submit { request } && create_request_matches(
                        request,
                        config.metadata,
                        config.is_private,
                        config.convert_to_csv,
                        flow.owner_slug@,
                        flow.dataset_slug@,
                        Seq::<DatasetUploadFile>::empty(),
                    )
                })
            },
    {
        let (owner_slug, dataset_slug) = match validate_dataset_create(
            username,
            &config.metadata,
            existing,
        ) {
            Ok(pair) => pair,
            Err(e) => {
                return Err(e);
            },
        };
        let mut metadata = config.metadata;
        let mut resources: Vec<Resource> = Vec::new();
        core::mem::swap(&mut metadata.resources, &mut resources);
        let plan = plan_uploads(entries, config.archive_mode);
        let (batch, step) = UploadBatch::start(plan, resources);
        let mut flow = DatasetCreateFlow {
            metadata,
            is_private: config.is_private,
            convert_to_csv: config.convert_to_csv,
            owner_slug,
            dataset_slug,
            batch,
            submitted: false,
        };
        match step {
            UploadStep::RequestTicket { file_name } => Ok(
                (flow, CreateStep::RequestTicket { file_name }),
            ),
            UploadStep::Finished => {
                let request = flow.build_request();
                proof {
                    assert(request.files@ =~= Seq::<DatasetUploadFile>::empty());
                }
                Ok((flow, CreateStep::Submit { request }))
            },
            UploadStep::SendFile { .. } => {
                proof {
                    assert(false);
                }
                Err(KaggleError::meta("unreachable"))
            },
        }
    }

    /// Record the granted ticket for the current file; the next step sends
    /// that file's bytes.
    pub fn on_ticket(&mut self, info: FileUploadInfo) -> (r: CreateStep)
        requires
            old(self).wf(),
            !old(self).submitted,
            old(self).batch.in_flight is None,
            old(self).batch.done < old(self).batch.plan@.len(),
        ensures
            final(self).wf(),
            *final(self) == (DatasetCreateFlow {
                batch: final(self).batch,
                ..*old(self)
            }),
            final(self).batch == (UploadBatch { in_flight: Some(info), ..old(self).batch }),
            r matches CreateStep::SendFile { item, url } && item == old(self).batch.plan@[
                old(self).batch.done as int
            ] && url@ == info.create_url@,
    {
        match self.batch.on_ticket(info) {
            UploadStep::SendFile { item, url } => CreateStep::SendFile { item, url },
            _ => {
                proof {
                    assert(false);
                }
                CreateStep::RequestTicket { file_name: String::new() }
            },
        }
    }

    /// Record that the current file's bytes arrived. The next step is the
    /// next file's ticket request, or, after the last file, the final create
    /// request, built exactly once from the metadata and every uploaded
    /// file's descriptor.
    pub fn on_uploaded(&mut self) -> (r: CreateStep)
        requires
            old(self).wf(),
            !old(self).submitted,
            old(self).batch.in_flight matches Some(info),
        ensures
            final(self).wf(),
            final(self).metadata == old(self).metadata,
            final(self).is_private == old(self).is_private,
            final(self).convert_to_csv == old(self).convert_to_csv,
            final(self).owner_slug == old(self).owner_slug,
            final(self).dataset_slug == old(self).dataset_slug,
            final(self).batch.plan == old(self).batch.plan,
            final(self).batch.resources == old(self).batch.resources,
            final(self).batch.in_flight is None,
            old(self).batch.done + 1 < old(self).batch.plan@.len() ==> {
                &&& !final(self).submitted
                &&& final(self).batch.done == old(self).batch.done + 1
                &&& final(self).batch.uploaded@ == old(self).batch.uploaded@.push(
                    final(self).batch.uploaded@.last(),
                )
                &&& upload_descriptor_matches(
                    final(self).batch.uploaded@.last(),
                    old(self).batch.in_flight->Some_0.token@,
                    old(self).batch.resources@,
                    spec_entry_name(old(self).batch.plan@[old(self).batch.done as int]),
                )
                &&& (r matches CreateStep::RequestTicket { file_name } && file_name@
                    == spec_entry_name(old(self).batch.plan@[old(self).batch.done + 1]))
            },
            old(self).batch.done + 1 == old(self).batch.plan@.len() ==> {
                &&& final(self).submitted
                &&& (r matches CreateStep::Submit { request } && {
                    &&& create_request_matches(
                        request,
                        old(self).metadata,
                        old(self).is_private,
                        old(self).convert_to_csv,
                        old(self).owner_slug@,
                        old(self).dataset_slug@,
                        request.files@,
                    )
                    &&& request.files@.len() == old(self).batch.plan@.len()
                    &&& request.files@ == old(self).batch.uploaded@.push(request.files@.last())
                    &&& upload_descriptor_matches(
                        request.files@.last(),
                        old(self).batch.in_flight->Some_0.token@,
                        old(self).batch.resources@,
                        spec_entry_name(old(self).batch.plan@[old(self).batch.done as int]),
                    )
                })
            },
    {
        match self.batch.on_uploaded() {
            UploadStep::RequestTicket { file_name } => CreateStep::RequestTicket { file_name },
            UploadStep::Finished => {
                let request = self.build_request();
                CreateStep::Submit { request }
            },
            UploadStep::SendFile { .. } => {
                proof {
                    assert(false);
                }
                CreateStep::RequestTicket { file_name: String::new() }
            },
        }
    }

    /// Assemble the create request from the validated metadata, the flags
    /// and the finished uploads. Purely combines already-validated data.
    fn build_request(&mut self) -> (r: DatasetNewRequest)
        requires
            old(self).wf(),
            !old(self).submitted,
            old(self).batch.in_flight is None,
            old(self).batch.done == old(self).batch.plan@.len(),
        ensures
            final(self).wf(),
            final(self).metadata == old(self).metadata,
            final(self).is_private == old(self).is_private,
            final(self).convert_to_csv == old(self).convert_to_csv,
            final(self).owner_slug == old(self).owner_slug,
            final(self).dataset_slug == old(self).dataset_slug,
            final(self).batch.plan == old(self).batch.plan,
            final(self).batch.resources == old(self).batch.resources,
            final(self).batch.in_flight is None,
            final(self).submitted,
            r.files@ == old(self).batch.uploaded@,
            create_request_matches(
                r,
                old(self).metadata,
                old(self).is_private,
                old(self).convert_to_csv,
                old(self).owner_slug@,
                old(self).dataset_slug@,
                old(self).batch.uploaded@,
            ),
    {
        let files = self.batch.take_files();
        let license = self.metadata.licenses[0];
        let request = DatasetNewRequest {
            title: self.metadata.title.clone(),
            slug: Some(self.dataset_slug.clone()),
            owner_slug: Some(self.owner_slug.clone()),
            license_name: Some(license.name().to_owned()),
            subtitle: crate::strutil::clone_opt_string(&self.metadata.subtitle),
            description: Some(self.metadata.description.clone()),
            files,
            is_private: self.is_private,
            convert_to_csv: self.convert_to_csv,
            category_ids: self.metadata.keywords.clone(),
        };
        self.submitted = true;
        proof {
            assert(request.category_ids@ =~= old(self).metadata.keywords@);
        }
        request
    }
}

/// Metadata that repeats a resource path never passes dataset-creation
/// validation, whatever the rest of it holds: no upload ticket is ever
/// requested for it.
pub proof fn lemma_duplicate_resource_blocks_create(
    user: Seq<char>,
    m: Metadata,
    existing: Seq<String>,
    i: int,
    j: int,
)
    requires
        0 <= i < j < m.resources@.len(),
        m.resources@[i].path@ == m.resources@[j].path@,
    ensures
        !create_validation_ok(user, m, existing),
{
    crate::models::metadata::lemma_duplicate_resource_rejected(m.resources@, existing, i, j);
}

/// Metadata with more or fewer than exactly one license never passes
/// dataset-creation validation: the create flow refuses to start, so no
/// ticket or submit call is ever issued for it.
pub proof fn lemma_license_count_enforced(user: Seq<char>, m: Metadata, existing: Seq<String>)
    requires
        m.licenses@.len() != 1,
    ensures
        !create_validation_ok(user, m, existing),
{
}

/// The structural rules a new dataset version enforces before any network
/// call: every declared resource exists under a unique path, and the
/// subtitle when present is 20 to 80 characters.
pub open spec fn version_validation_ok(m: Metadata, existing: Seq<String>) -> bool {
    &&& first_bad_resource(m.resources@, existing) == -1
    &&& match m.subtitle {
        Some(s) => 20 <= s@.len() <= 80,
        None => true,
    }
}

/// Check the new-version rules.
pub fn validate_dataset_version(m: &Metadata, existing: &Vec<String>) -> (r: Result<
    (),
    KaggleError,
>)
    ensures
        r is Ok <==> version_validation_ok(*m, existing@),
        r matches Err(e) ==> e is Metadata || e is FileNotFound,
{
    match m.validate_resource(existing) {
        Ok(_) => {},
        Err(e) => {
            return Err(e);
        },
    }
    match &m.subtitle {
        Some(subtitle) => {
            let sub_len = subtitle.as_str().unicode_len();
            if sub_len < 20 || sub_len > 80 {
                return Err(
                    KaggleError::meta("Subtitle length must be between 20 and 80 characters"),
                );
            }
        },
        None => {},
    }
    Ok(())
}

/// Which endpoint a new version is submitted to: the numeric id takes
/// precedence over the owner/slug identifier when both are present.
#[derive(Debug)]
pub enum VersionTarget {
    /// Submit by the dataset's numeric id.
    ById { id: i32 },
    /// Submit by the dataset's owner and slug.
    ByName { owner_slug: String, dataset_slug: String },
}

/// Whether the version submission target can be resolved at all: a numeric
/// id always can; an identifier must not be the template placeholder under
/// the authenticated user and must parse into owner and slug.
pub open spec fn version_target_defined(user: Seq<char>, m: Metadata) -> bool {
    match m.id_no {
        Some(_) => true,
        None => m.id@ != user + "/INSERT_SLUG_HERE"@ && spec_parse_identifier(user, m.id@) is Some,
    }
}

/// Whether a target is the one the metadata resolves to.
pub open spec fn version_target_matches(t: VersionTarget, user: Seq<char>, m: Metadata) -> bool {
    match m.id_no {
        Some(id) => t matches VersionTarget::ById { id: tid } && tid == id,
        None => t matches VersionTarget::ByName { owner_slug, dataset_slug }
            && spec_parse_identifier(user, m.id@) == Some((owner_slug@, dataset_slug@)),
    }
}

/// Resolve the version submission target from the metadata's identity
/// fields.
pub fn resolve_version_target(username: &str, m: &Metadata) -> (r: Result<
    VersionTarget,
    KaggleError,
>)
    ensures
        r is Ok <==> version_target_defined(username@, *m),
        r matches Ok(t) ==> version_target_matches(t, username@, *m),
        r matches Err(e) ==> e is Metadata,
{
    match m.id_no {
        Some(id) => Ok(VersionTarget::ById { id }),
        None => {
            let mut placeholder = username.to_owned();
            placeholder.append("/INSERT_SLUG_HERE");
            if str_eq(m.id.as_str(), placeholder.as_str()) {
                return Err(
                    KaggleError::meta(
                        "Default slug detected, please change values before uploading",
                    ),
                );
            }
            match crate::client::parse_identifier(username, m.id.as_str()) {
                Ok(pair) => Ok(
                    VersionTarget::ByName {
                        owner_slug: pair.0.to_owned(),
                        dataset_slug: pair.1.to_owned(),
                    },
                ),
                Err(e) => Err(e),
            }
        },
    }
}

/// Whether a new-version request is exactly the one the metadata, the notes,
/// the flags and the uploaded files induce.
pub open spec fn version_request_matches(
    req: DatasetNewVersionRequest,
    m: Metadata,
    version_notes: Seq<char>,
    convert_to_csv: bool,
    delete_old_versions: bool,
    files: Seq<DatasetUploadFile>,
) -> bool {
    &&& req.version_notes@ == version_notes
    &&& req.subtitle == m.subtitle
    &&& req.description == Some(m.description)
    &&& req.convert_to_csv == Some(convert_to_csv)
    &&& req.category_ids matches Some(c) && c@ == m.keywords@
    &&& req.delete_old_versions == Some(delete_old_versions)
    &&& req.files@ == files
}

/// What the driver of a new dataset version must do next.
#[derive(Debug)]
pub enum VersionStep {
    /// Request an upload ticket for this entry name, then report the granted
    /// ticket.
    RequestTicket { file_name: String },
    /// Send the planned file's bytes to the ticket's URL, then report
    /// completion.
    SendFile { item: UploadPlanItem, url: String },
    /// Every upload is finished: POST this request to the target's version
    /// endpoint. The response is the flow's result.
    Submit { target: VersionTarget, request: DatasetNewVersionRequest },
}

/// The publication of a new version of an existing dataset: validate
/// locally, upload sequentially, then submit once to the endpoint the
/// metadata's identity resolves to.
#[derive(Debug)]
pub struct DatasetVersionFlow {
    /// The authenticated user, the implied owner of bare slugs.
    pub username: String,
    /// The validated metadata; its resources live in the batch.
    pub metadata: Metadata,
    /// The notes describing this version.
    pub version_notes: String,
    /// Whether tabular files are converted to csv.
    pub convert_to_csv: bool,
    /// Whether older versions are deleted on publication.
    pub delete_old_versions: bool,
    /// The sequential upload of the planned files.
    pub batch: UploadBatch,
    /// Whether the final request has been handed out.
    pub submitted: bool,
}

impl DatasetVersionFlow {
    /// The flow's bookkeeping stays consistent.
    pub open spec fn wf(self) -> bool {
        self.batch.wf()
    }

    /// Validate the metadata and plan the uploads. No network step is handed
    /// out unless the local rules hold; with nothing to upload the first
    /// step is already the final request, so an unresolvable target fails
    /// right here.
    pub fn start(
        username: &str,
        metadata: Metadata,
        version_notes: String,
        convert_to_csv: bool,
        delete_old_versions: bool,
        archive_mode: ArchiveMode,
        entries: &Vec<FolderEntry>,
        existing: &Vec<String>,
    ) -> (r: Result<(DatasetVersionFlow, VersionStep), KaggleError>)
        ensures
            r is Ok <==> version_validation_ok(metadata, existing@) && (spec_plan_len(
                entries@,
                archive_mode,
            ) > 0 || version_target_defined(username@, metadata)),
            r matches Err(e) ==> e is Metadata || e is FileNotFound,
            r matches Ok(pair) ==> {
                let flow = pair.0;
                &&& flow.wf()
                &&& flow.username@ == username@
                &&& flow.version_notes == version_notes
                &&& flow.convert_to_csv == convert_to_csv
                &&& flow.delete_old_versions == delete_old_versions
                &&& plan_matches(flow.batch.plan@, entries@, archive_mode)
                &&& flow.batch.resources@ == metadata.resources@
                &&& flow.batch.done == 0
                &&& flow.batch.in_flight is None
                &&& flow.batch.uploaded@.len() == 0
                &&& (flow.batch.plan@.len() > 0 ==> {
                    &&& !flow.submitted
                    &&& pair.1 matches VersionStep::RequestTicket { file_name } && file_name@
                        == spec_entry_name(flow.batch.plan@[0])
                })
                &&& (flow.batch.plan@.len() == 0 ==> {
                    &&& flow.submitted
                    &&& pair.1 matches VersionStep::Submit { target, request } && {
                        &&& version_target_matches(target, username@, metadata)
                        &&& version_request_matches(
                            request,
                            metadata,
                            version_notes@,
                            convert_to_csv,
                            delete_old_versions,
                            Seq::<DatasetUploadFile>::empty(),
                        )
                    }
                })
            },
    {
        match validate_dataset_version(&metadata, existing) {
            Ok(_) => {},
            Err(e) => {
                return Err(e);
            },
        }
        let mut metadata = metadata;
        let mut resources: Vec<Resource> = Vec::new();
        core::mem::swap(&mut metadata.resources, &mut resources);
        let plan = plan_uploads(entries, archive_mode);
        proof {
            crate::upload::lemma_plan_len(plan@, entries@, archive_mode);
        }
        let (batch, step) = UploadBatch::start(plan, resources);
        let mut flow = DatasetVersionFlow {
            username: username.to_owned(),
            metadata,
            version_notes,
            convert_to_csv,
            delete_old_versions,
            batch,
            submitted: false,
        };
        match step {
            UploadStep::RequestTicket { file_name } => Ok(
                (flow, VersionStep::RequestTicket { file_name }),
            ),
            UploadStep::Finished => {
                match flow.build_request() {
                    Ok(step) => {
                        proof {
                            if flow.batch.plan@.len() == 0 {
                                assert(step matches VersionStep::Submit { request, .. }
                                    ==> request.files@ =~= Seq::<DatasetUploadFile>::empty());
                            }
                        }
                        Ok((flow, step))
                    },
                    Err(e) => Err(e),
                }
            },
            UploadStep::SendFile { .. } => {
                proof {
                    assert(false);
                }
                Err(KaggleError::meta("unreachable"))
            },
        }
    }

    /// Record the granted ticket for the current file; the next step sends
    /// that file's bytes.
    pub fn on_ticket(&mut self, info: FileUploadInfo) -> (r: VersionStep)
        requires
            old(self).wf(),
            !old(self).submitted,
            old(self).batch.in_flight is None,
            old(self).batch.done < old(self).batch.plan@.len(),
        ensures
            final(self).wf(),
            *final(self) == (DatasetVersionFlow { batch: final(self).batch, ..*old(self) }),
            final(self).batch == (UploadBatch { in_flight: Some(info), ..old(self).batch }),
            r matches VersionStep::SendFile { item, url } && item == old(self).batch.plan@[
                old(self).batch.done as int
            ] && url@ == info.create_url@,
    {
        match self.batch.on_ticket(info) {
            UploadStep::SendFile { item, url } => VersionStep::SendFile { item, url },
            _ => {
                proof {
                    assert(false);
                }
                VersionStep::RequestTicket { file_name: String::new() }
            },
        }
    }

    /// Record that the current file's bytes arrived. The next step is the
    /// next file's ticket request, or, after the last file, the final
    /// version request — unless the metadata's identity cannot be resolved
    /// into a submission target, which fails the batch here.
    pub fn on_uploaded(&mut self) -> (r: Result<VersionStep, KaggleError>)
        requires
            old(self).wf(),
            !old(self).submitted,
            old(self).batch.in_flight matches Some(info),
        ensures
            final(self).wf(),
            final(self).username == old(self).username,
            final(self).metadata == old(self).metadata,
            final(self).version_notes == old(self).version_notes,
            final(self).convert_to_csv == old(self).convert_to_csv,
            final(self).delete_old_versions == old(self).delete_old_versions,
            final(self).batch.plan == old(self).batch.plan,
            final(self).batch.resources == old(self).batch.resources,
            final(self).batch.in_flight is None,
            old(self).batch.done + 1 < old(self).batch.plan@.len() ==> {
                &&& !final(self).submitted
                &&& final(self).batch.done == old(self).batch.done + 1
                &&& final(self).batch.uploaded@ == old(self).batch.uploaded@.push(
                    final(self).batch.uploaded@.last(),
                )
                &&& upload_descriptor_matches(
                    final(self).batch.uploaded@.last(),
                    old(self).batch.in_flight->Some_0.token@,
                    old(self).batch.resources@,
                    spec_entry_name(old(self).batch.plan@[old(self).batch.done as int]),
                )
                &&& (r matches Ok(step) && step matches VersionStep::RequestTicket { file_name }
                    && file_name@ == spec_entry_name(
                    old(self).batch.plan@[old(self).batch.done + 1],
                ))
            },
            old(self).batch.done + 1 == old(self).batch.plan@.len() ==> {
                &&& (r is Ok <==> version_target_defined(old(self).username@, old(self).metadata))
                &&& (r matches Ok(step) ==> final(self).submitted && (step
                    matches VersionStep::Submit { target, request } && {
                    &&& version_target_matches(target, old(self).username@, old(self).metadata)
                    &&& version_request_matches(
                        request,
                        old(self).metadata,
                        old(self).version_notes@,
                        old(self).convert_to_csv,
                        old(self).delete_old_versions,
                        request.files@,
                    )
                    &&& request.files@.len() == old(self).batch.plan@.len()
                    &&& request.files@ == old(self).batch.uploaded@.push(request.files@.last())
                    &&& upload_descriptor_matches(
                        request.files@.last(),
                        old(self).batch.in_flight->Some_0.token@,
                        old(self).batch.resources@,
                        spec_entry_name(old(self).batch.plan@[old(self).batch.done as int]),
                    )
                }))
                &&& (r matches Err(e) ==> e is Metadata)
            },
    {
        match self.batch.on_uploaded() {
            UploadStep::RequestTicket { file_name } => Ok(
                VersionStep::RequestTicket { file_name },
            ),
            UploadStep::Finished => self.build_request(),
            UploadStep::SendFile { .. } => {
                proof {
                    assert(false);
                }
                Ok(VersionStep::RequestTicket { file_name: String::new() })
            },
        }
    }

    /// Assemble the version request and its submission target from the
    /// metadata, the flags and the finished uploads.
    fn build_request(&mut self) -> (r: Result<VersionStep, KaggleError>)
        requires
            old(self).wf(),
            !old(self).submitted,
            old(self).batch.in_flight is None,
            old(self).batch.done == old(self).batch.plan@.len(),
        ensures
            final(self).wf(),
            final(self).username == old(self).username,
            final(self).metadata == old(self).metadata,
            final(self).version_notes == old(self).version_notes,
            final(self).convert_to_csv == old(self).convert_to_csv,
            final(self).delete_old_versions == old(self).delete_old_versions,
            final(self).batch.plan == old(self).batch.plan,
            final(self).batch.resources == old(self).batch.resources,
            final(self).batch.in_flight is None,
            r is Ok <==> version_target_defined(old(self).username@, old(self).metadata),
            r matches Ok(step) ==> final(self).submitted && (step matches VersionStep::Submit {
                target,
                request,
            } && {
                &&& version_target_matches(target, old(self).username@, old(self).metadata)
                &&& version_request_matches(
                    request,
                    old(self).metadata,
                    old(self).version_notes@,
                    old(self).convert_to_csv,
                    old(self).delete_old_versions,
                    old(self).batch.uploaded@,
                )
                &&& request.files@ == old(self).batch.uploaded@
            }),
            r matches Err(e) ==> e is Metadata && final(self).submitted == old(self).submitted,
            r is Err ==> final(self).batch.uploaded == old(self).batch.uploaded,
    {
        let target = match resolve_version_target(self.username.as_str(), &self.metadata) {
            Ok(t) => t,
            Err(e) => {
                return Err(e);
            },
        };
        let files = self.batch.take_files();
        let request = DatasetNewVersionRequest {
            version_notes: self.version_notes.clone(),
            subtitle: crate::strutil::clone_opt_string(&self.metadata.subtitle),
            description: Some(self.metadata.description.clone()),
            files,
            convert_to_csv: Some(self.convert_to_csv),
            category_ids: Some(self.metadata.keywords.clone()),
            delete_old_versions: Some(self.delete_old_versions),
        };
        self.submitted = true;
        proof {
            assert(request.category_ids->Some_0@ =~= old(self).metadata.keywords@);
        }
        Ok(VersionStep::Submit { target, request })
    }
}

} // verus!
