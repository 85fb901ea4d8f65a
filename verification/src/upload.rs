//! Planning and sequencing the upload of a folder's resources: which entries
//! are uploaded and under what name, and the strictly sequential
//! ticket-then-upload protocol for each planned file.

use vstd::prelude::*;

use crate::archive::{spec_archive_destination, ArchiveMode};
use crate::models::metadata::{column_matches_field, Resource};
use crate::models::extended::FileUploadInfo;
use crate::models::DatasetUploadFile;
use crate::strutil::str_eq;

verus! {

/// What the file system shows about one immediate child of the resource
/// root: its name and whether it is a directory. Only one level is ever
/// walked.
#[derive(Debug, Clone)]
pub struct FolderEntry {
    pub name: String,
    pub is_dir: bool,
}

/// One planned upload: either a plain file uploaded as it is, or a directory
/// archived first and uploaded as the single archive file.
#[derive(Debug)]
pub enum UploadPlanItem {
    /// Upload the named file unmodified.
    SingleFile { name: String },
    /// Archive the named directory into `archive_name`, then upload that
    /// file.
    ArchivedDirectory { name: String, archive_name: String },
}

impl Clone for UploadPlanItem {
    /// An exact copy of the plan item.
    fn clone(&self) -> (r: Self)
        ensures
            r == *self,
    {
        match self {
            UploadPlanItem::SingleFile { name } => UploadPlanItem::SingleFile {
                name: name.clone(),
            },
            UploadPlanItem::ArchivedDirectory { name, archive_name } =>
                UploadPlanItem::ArchivedDirectory {
                name: name.clone(),
                archive_name: archive_name.clone(),
            },
        }
    }
}

impl UploadPlanItem {
    /// The entry name the item was planned from, which also names the upload
    /// when the ticket is requested.
    pub fn entry_name(&self) -> (r: &String)
        ensures
            r@ == spec_entry_name(*self),
    {
        match self {
            UploadPlanItem::SingleFile { name } => name,
            UploadPlanItem::ArchivedDirectory { name, .. } => name,
        }
    }
}

/// The entry name a plan item was planned from.
pub open spec fn spec_entry_name(item: UploadPlanItem) -> Seq<char> {
    match item {
        UploadPlanItem::SingleFile { name } => name@,
        UploadPlanItem::ArchivedDirectory { name, .. } => name@,
    }
}

/// Whether a file name is one of the well-known metadata file names, which
/// are never uploaded as resources.
pub open spec fn is_metadata_file_name(name: Seq<char>) -> bool {
    name == "dataset-metadata.json"@ || name == "datapackage.json"@ || name
        == "kernel-metadata.json"@
}

/// Whether a folder entry is uploaded at all: plain files are, unless they
/// carry a metadata file name; directories are only when they are archived
/// first, so `Skip` mode deliberately omits them.
pub open spec fn entry_included(e: FolderEntry, mode: ArchiveMode) -> bool {
    if e.is_dir {
        mode != ArchiveMode::Skip
    } else {
        !is_metadata_file_name(e.name@)
    }
}

/// Whether a plan item is the right one for a folder entry: a file becomes a
/// plain upload of the same name, and a directory becomes an archived upload
/// whose archive name the mode derives from the entry name.
pub open spec fn plan_item_for(item: UploadPlanItem, e: FolderEntry, mode: ArchiveMode) -> bool {
    if e.is_dir {
        item matches UploadPlanItem::ArchivedDirectory { name, archive_name } && name@ == e.name@
            && spec_archive_destination(mode, e.name@) == Some(archive_name@)
    } else {
        item matches UploadPlanItem::SingleFile { name } && name@ == e.name@
    }
}

/// Whether a plan is exactly the included entries, in walk order, each
/// turned into its plan item.
pub open spec fn plan_matches(
    plan: Seq<UploadPlanItem>,
    entries: Seq<FolderEntry>,
    mode: ArchiveMode,
) -> bool
    decreases entries.len(),
{
    if entries.len() == 0 {
        plan.len() == 0
    } else if entry_included(entries[0], mode) {
        plan.len() > 0 && plan_item_for(plan[0], entries[0], mode) && plan_matches(
            plan.drop_first(),
            entries.drop_first(),
            mode,
        )
    } else {
        plan_matches(plan, entries.drop_first(), mode)
    }
}

/// How many of the entries are uploaded at all.
pub open spec fn spec_plan_len(entries: Seq<FolderEntry>, mode: ArchiveMode) -> nat
    decreases entries.len(),
{
    if entries.len() == 0 {
        0
    } else {
        (if entry_included(entries[0], mode) {
            1nat
        } else {
            0nat
        }) + spec_plan_len(entries.drop_first(), mode)
    }
}

/// A plan for some entries has exactly one item per included entry.
pub proof fn lemma_plan_len(plan: Seq<UploadPlanItem>, entries: Seq<FolderEntry>, mode: ArchiveMode)
    requires
        plan_matches(plan, entries, mode),
    ensures
        plan.len() == spec_plan_len(entries, mode),
    decreases entries.len(),
{
    if entries.len() > 0 {
        if entry_included(entries[0], mode) {
            lemma_plan_len(plan.drop_first(), entries.drop_first(), mode);
        } else {
            lemma_plan_len(plan, entries.drop_first(), mode);
        }
    }
}

/// Compute the upload plan for the immediate children of the resource root:
/// metadata files are skipped, plain files are uploaded as they are, and
/// directories are archived under the mode's extension or omitted under
/// `Skip`.
pub fn plan_uploads(entries: &Vec<FolderEntry>, mode: ArchiveMode) -> (r: Vec<UploadPlanItem>)
    ensures
        plan_matches(r@, entries@, mode),
{
    let r = plan_uploads_from(entries, mode, 0);
    proof {
        assert(entries@.subrange(0, entries@.len() as int) =~= entries@);
    }
    r
}

/// The upload plan for the entries from index `i` on.
fn plan_uploads_from(entries: &Vec<FolderEntry>, mode: ArchiveMode, i: usize) -> (r: Vec<
    UploadPlanItem,
>)
    requires
        i <= entries@.len(),
    ensures
        plan_matches(r@, entries@.subrange(i as int, entries@.len() as int), mode),
    decreases entries@.len() - i,
{
    let n = entries.len();
    if i == n {
        let empty: Vec<UploadPlanItem> = Vec::new();
        proof {
            assert(entries@.subrange(i as int, entries@.len() as int) =~= Seq::<
                FolderEntry,
            >::empty());
        }
        return empty;
    }
    let mut rest = plan_uploads_from(entries, mode, i + 1);
    let entry = &entries[i];
    let ghost tail = entries@.subrange(i as int, entries@.len() as int);
    proof {
        assert(tail[0] == entries@[i as int]);
        assert(tail.drop_first() =~= entries@.subrange(i as int + 1, entries@.len() as int));
    }
    if entry.is_dir {
        match mode.archive_destination(entry.name.as_str()) {
            Some(archive_name) => {
                let item = UploadPlanItem::ArchivedDirectory {
                    name: entry.name.clone(),
                    archive_name,
                };
                let ghost prev = rest@;
                rest.insert(0, item);
                proof {
                    assert(rest@.drop_first() =~= prev);
                }
                rest
            },
            None => rest,
        }
    } else {
        let name = entry.name.as_str();
        if str_eq(name, "dataset-metadata.json") || str_eq(name, "datapackage.json") || str_eq(
            name,
            "kernel-metadata.json",
        ) {
            rest
        } else {
            let item = UploadPlanItem::SingleFile { name: entry.name.clone() };
            let ghost prev = rest@;
            rest.insert(0, item);
            proof {
                assert(rest@.drop_first() =~= prev);
            }
            rest
        }
    }
}

/// The index of the first declared resource whose path is the given name, or
/// `-1` when none matches.
pub open spec fn first_resource_index(resources: Seq<Resource>, name: Seq<char>) -> int
    decreases resources.len(),
{
    if resources.len() == 0 {
        -1
    } else if resources[0].path@ == name {
        0
    } else {
        let r = first_resource_index(resources.drop_first(), name);
        if r == -1 {
            -1
        } else {
            r + 1
        }
    }
}

/// Find the declared resource matching an uploaded file's name.
pub fn find_resource<'a>(resources: &'a Vec<Resource>, name: &str) -> (r: Option<&'a Resource>)
    ensures
        match r {
            Some(res) => first_resource_index(resources@, name@) >= 0 && *res == resources@[
                first_resource_index(resources@, name@)
            ],
            None => first_resource_index(resources@, name@) == -1,
        },
{
    proof {
        lemma_first_resource_index(resources@, name@);
    }
    let n = resources.len();
    let mut i: usize = 0;
    while i < n
        invariant
            i <= n,
            n == resources@.len(),
            forall|j: int| 0 <= j < i ==> (#[trigger] resources@[j].path@) != name@,
            -1 <= first_resource_index(resources@, name@) < n,
            first_resource_index(resources@, name@) >= 0 ==> resources@[
                first_resource_index(resources@, name@)
            ].path@ == name@,
            first_resource_index(resources@, name@) >= 0 ==> forall|j: int|
                0 <= j < first_resource_index(resources@, name@) ==> (
                #[trigger] resources@[j].path@) != name@,
            first_resource_index(resources@, name@) == -1 ==> forall|j: int|
                0 <= j < n ==> (#[trigger] resources@[j].path@) != name@,
        decreases n - i,
    {
        if str_eq(resources[i].path.as_str(), name) {
            proof {
                if first_resource_index(resources@, name@) < i {
                    assert(resources@[first_resource_index(resources@, name@)].path@ == name@);
                }
                if first_resource_index(resources@, name@) > i {
                    assert(resources@[i as int].path@ != name@);
                }
            }
            return Some(&resources[i]);
        }
        i += 1;
    }
    proof {
        if first_resource_index(resources@, name@) >= 0 {
            assert(resources@[first_resource_index(resources@, name@)].path@ == name@);
        }
    }
    None
}

/// The first occurrence of a matching resource is a match, nothing before it
/// matches, and `-1` means nothing matches at all.
proof fn lemma_first_resource_index(resources: Seq<Resource>, name: Seq<char>)
    ensures
        -1 <= first_resource_index(resources, name) < resources.len(),
        first_resource_index(resources, name) == -1 ==> forall|j: int|
            0 <= j < resources.len() ==> (#[trigger] resources[j].path@) != name,
        first_resource_index(resources, name) >= 0 ==> resources[
            first_resource_index(resources, name)
        ].path@ == name,
        first_resource_index(resources, name) >= 0 ==> forall|j: int|
            0 <= j < first_resource_index(resources, name) ==> (#[trigger] resources[j].path@)
                != name,
    decreases resources.len(),
{
    if resources.len() > 0 && resources[0].path@ != name {
        lemma_first_resource_index(resources.drop_first(), name);
        assert forall|j: int| 1 <= j < resources.len() implies resources[j]
            == resources.drop_first()[j - 1] by {}
    }
}

/// Whether an upload descriptor is the right one for a token and matched
/// resource: it carries the token; a matched resource contributes its
/// description and, through its schema, the processed column metadata; an
/// unmatched upload carries neither.
pub open spec fn upload_descriptor_matches(
    d: DatasetUploadFile,
    token: Seq<char>,
    resources: Seq<Resource>,
    name: Seq<char>,
) -> bool {
    &&& d.token@ == token
    &&& {
        let i = first_resource_index(resources, name);
        if i == -1 {
            d.description is None && d.columns@.len() == 0
        } else {
            &&& d.description matches Some(desc) && desc@ == resources[i].description@
            &&& match resources[i].schema {
                Some(schema) => d.columns@.len() == schema.fields@.len() && (forall|k: int|
                    0 <= k < d.columns@.len() ==> column_matches_field(
                        #[trigger] d.columns@[k],
                        schema.fields@[k],
                    )),
                None => d.columns@.len() == 0,
            }
        }
    }
}

/// Build the descriptor for one finished upload: the ticket's token,
/// decorated with the description and processed columns of the declared
/// resource whose path equals the uploaded entry's name. A resource renamed
/// on disk silently fails to match and contributes nothing.
pub fn upload_descriptor(token: String, resources: &Vec<Resource>, name: &str) -> (r:
    DatasetUploadFile)
    ensures
        upload_descriptor_matches(r, token@, resources@, name@),
{
    let mut file = DatasetUploadFile::new(token);
    match find_resource(resources, name) {
        Some(res) => {
            file.set_description(res.description.clone());
            match &res.schema {
                Some(schema) => {
                    file.set_columns(schema.get_processed_columns());
                },
                None => {},
            }
        },
        None => {},
    }
    file
}

/// The strictly sequential upload of one planned batch: for each planned
/// file, in order, a ticket is requested and the bytes are sent, and the
/// finished uploads accumulate as descriptors. One ticket authorizes exactly
/// one upload; a failure aborts the batch by dropping it, and files already
/// uploaded are not rolled back.
#[derive(Debug)]
pub struct UploadBatch {
    /// The planned uploads, in walk order.
    pub plan: Vec<UploadPlanItem>,
    /// The declared resources, matched by entry name to decorate
    /// descriptors.
    pub resources: Vec<Resource>,
    /// How many planned uploads are fully finished.
    pub done: usize,
    /// The ticket granted for plan item `done`, when its bytes are still in
    /// flight.
    pub in_flight: Option<FileUploadInfo>,
    /// The descriptors of the finished uploads, in order.
    pub uploaded: Vec<DatasetUploadFile>,
}

/// What the driver of an upload batch must do next.
#[derive(Debug)]
pub enum UploadStep {
    /// Request an upload ticket for this entry name, then report the granted
    /// ticket.
    RequestTicket { file_name: String },
    /// Send the planned file's bytes to the ticket's URL, then report
    /// completion. For an archived directory the archive is written first.
    SendFile { item: UploadPlanItem, url: String },
    /// Every planned upload is finished; the descriptors wait in the batch.
    Finished,
}

impl UploadBatch {
    /// The batch's bookkeeping stays consistent: progress never passes the
    /// plan, descriptors exist exactly for the finished uploads, and each
    /// one matches its plan item and ticket.
    pub open spec fn wf(self) -> bool {
        &&& self.done <= self.plan@.len()
        &&& self.uploaded@.len() == self.done
        &&& self.in_flight is Some ==> self.done < self.plan@.len()
    }

    /// Start the batch for a plan: the first step is the first file's ticket
    /// request, or immediate completion for an empty plan.
    pub fn start(plan: Vec<UploadPlanItem>, resources: Vec<Resource>) -> (r: (UploadBatch,
        UploadStep))
        ensures
            r.0.wf(),
            r.0.plan == plan,
            r.0.resources == resources,
            r.0.done == 0,
            r.0.in_flight is None,
            r.0.uploaded@.len() == 0,
            plan@.len() == 0 ==> r.1 is Finished,
            plan@.len() > 0 ==> (r.1 matches UploadStep::RequestTicket { file_name } && file_name@
                == spec_entry_name(plan@[0])),
    {
        let batch = UploadBatch {
            plan,
            resources,
            done: 0,
            in_flight: None,
            uploaded: Vec::new(),
        };
        let step = if batch.plan.len() == 0 {
            UploadStep::Finished
        } else {
            UploadStep::RequestTicket { file_name: batch.plan[0].entry_name().clone() }
        };
        (batch, step)
    }

    /// Record the granted ticket for the current file; the next step sends
    /// that file's bytes to the ticket's URL.
    pub fn on_ticket(&mut self, info: FileUploadInfo) -> (r: UploadStep)
        requires
            old(self).wf(),
            old(self).in_flight is None,
            old(self).done < old(self).plan@.len(),
        ensures
            final(self).wf(),
            *final(self) == (UploadBatch { in_flight: Some(info), ..*old(self) }),
            r matches UploadStep::SendFile { item, url } && item == old(self).plan@[
                old(self).done as int
            ] && url@ == info.create_url@,
    {
        let url = info.create_url.clone();
        let item = self.plan[self.done].clone();
        assert(item == self.plan@[self.done as int]);
        self.in_flight = Some(info);
        UploadStep::SendFile { item, url }
    }

    /// Record that the current file's bytes arrived: its descriptor joins
    /// the batch, and the next step is the next file's ticket request, or
    /// completion after the last file. Completion is only ever reached with
    /// every planned file uploaded.
    pub fn on_uploaded(&mut self) -> (r: UploadStep)
        requires
            old(self).wf(),
            old(self).in_flight matches Some(info),
        ensures
            final(self).wf(),
            final(self).plan == old(self).plan,
            final(self).resources == old(self).resources,
            final(self).done == old(self).done + 1,
            final(self).in_flight is None,
            final(self).uploaded@.len() == old(self).uploaded@.len() + 1,
            final(self).uploaded@ == old(self).uploaded@.push(final(self).uploaded@.last()),
            upload_descriptor_matches(
                final(self).uploaded@.last(),
                old(self).in_flight->Some_0.token@,
                old(self).resources@,
                spec_entry_name(old(self).plan@[old(self).done as int]),
            ),
            old(self).done + 1 < old(self).plan@.len() ==> (r matches UploadStep::RequestTicket {
                file_name,
            } && file_name@ == spec_entry_name(old(self).plan@[old(self).done + 1])),
            old(self).done + 1 == old(self).plan@.len() ==> r is Finished,
    {
        let info = match &self.in_flight {
            Some(info) => info.clone(),
            None => {
                proof {
                    assert(false);
                }
                FileUploadInfo { token: String::new(), create_url: String::new() }
            },
        };
        let total = self.plan.len();
        assert(self.done < total);
        let name = self.plan[self.done].entry_name().clone();
        let descriptor = upload_descriptor(info.token, &self.resources, name.as_str());
        self.uploaded.push(descriptor);
        self.done = self.done + 1;
        self.in_flight = None;
        if self.done < self.plan.len() {
            UploadStep::RequestTicket { file_name: self.plan[self.done].entry_name().clone() }
        } else {
            UploadStep::Finished
        }
    }

    /// Hand over the descriptors of a finished batch, leaving the batch
    /// empty.
    pub fn take_files(&mut self) -> (r: Vec<DatasetUploadFile>)
        requires
            old(self).wf(),
            old(self).in_flight is None,
            old(self).done == old(self).plan@.len(),
        ensures
            final(self).wf(),
            r == old(self).uploaded,
            final(self).plan == old(self).plan,
            final(self).resources == old(self).resources,
            final(self).done == 0,
            final(self).in_flight is None,
            final(self).uploaded@.len() == 0,
    {
        let mut files: Vec<DatasetUploadFile> = Vec::new();
        core::mem::swap(&mut self.uploaded, &mut files);
        self.done = 0;
        files
    }
}

} // verus!
