//! Artifacts: one uploaded binary each, with the metadata stored for it.

use vstd::prelude::*;
use vstd::string::StrSliceExecFns;
use vstd::string::StringExecFns;
use crate::error::AppError;
use crate::helpers::artifact::{create_file_path, file_path};
use crate::helpers::text::{copy_opt_text, opt_text};
use crate::helpers::uuid::all_lower_hex;
use crate::schemas::project::{copy_opt_project, opt_project, Project, ProjectView};

verus! {

/// The kind of binary, told by the end of its file name.
#[derive(Debug, Clone, Copy, PartialEq, Eq, Structural)]
pub enum ArtifactExtensions {
    /// An iOS package.
    Ipa,
    /// An Android package.
    Apk,
    /// An Android app bundle.
    Aab,
}

/// Whether `c` is the letter `lower` in either case. `lower` and `upper` are
/// the two cases of one ASCII letter.
pub open spec fn is_letter(c: char, lower: char, upper: char) -> bool {
    c == lower || c == upper
}

/// The kind that a file name stands for: its last three characters, compared
/// without regard to ASCII case, are `apk` for an Android package and `ipa`
/// for an iOS package. Every other name, a name of fewer than three
/// characters too, is an Android app bundle.
pub open spec fn classify(filename: Seq<char>) -> ArtifactExtensions {
    let n = filename.len() as int;
    if n < 3 {
        ArtifactExtensions::Aab
    } else if is_letter(filename[n - 3], 'a', 'A') && is_letter(filename[n - 2], 'p', 'P')
        && is_letter(filename[n - 1], 'k', 'K') {
        ArtifactExtensions::Apk
    } else if is_letter(filename[n - 3], 'i', 'I') && is_letter(filename[n - 2], 'p', 'P')
        && is_letter(filename[n - 1], 'a', 'A') {
        ArtifactExtensions::Ipa
    } else {
        ArtifactExtensions::Aab
    }
}

impl ArtifactExtensions {
    /// The variant's name.
    pub open spec fn name(self) -> Seq<char> {
        match self {
            ArtifactExtensions::Ipa => seq!['I', 'p', 'a'],
            ArtifactExtensions::Apk => seq!['A', 'p', 'k'],
            ArtifactExtensions::Aab => seq!['A', 'a', 'b'],
        }
    }

    /// The file suffix: the variant's name in lower case.
    pub open spec fn suffix(self) -> Seq<char> {
        match self {
            ArtifactExtensions::Ipa => seq!['i', 'p', 'a'],
            ArtifactExtensions::Apk => seq!['a', 'p', 'k'],
            ArtifactExtensions::Aab => seq!['a', 'a', 'b'],
        }
    }

    /// The variant's name, as text.
    pub fn to_string(&self) -> (r: String)
        ensures
            r@ == self.name(),
    {
        proof {
            reveal_strlit("Ipa");
            reveal_strlit("Apk");
            reveal_strlit("Aab");
        }
        let r = match self {
            ArtifactExtensions::Ipa => String::from_str("Ipa"),
            ArtifactExtensions::Apk => String::from_str("Apk"),
            ArtifactExtensions::Aab => String::from_str("Aab"),
        };
        assert(r@ =~= self.name());
        r
    }

    /// The file suffix, as text.
    pub fn to_lowercase(&self) -> (r: String)
        ensures
            r@ == self.suffix(),
    {
        proof {
            reveal_strlit("ipa");
            reveal_strlit("apk");
            reveal_strlit("aab");
        }
        let r = match self {
            ArtifactExtensions::Ipa => String::from_str("ipa"),
            ArtifactExtensions::Apk => String::from_str("apk"),
            ArtifactExtensions::Aab => String::from_str("aab"),
        };
        assert(r@ =~= self.suffix());
        r
    }

    /// Classifies a binary by its file name.
    pub fn from_filename(filename: &str) -> (r: ArtifactExtensions)
        ensures
            r == classify(filename@),
    {
        let n = filename.unicode_len();
        if n < 3 {
            return ArtifactExtensions::Aab;
        }
        let x = filename.get_char(n - 3);
        let y = filename.get_char(n - 2);
        let z = filename.get_char(n - 1);
        if (x == 'a' || x == 'A') && (y == 'p' || y == 'P') && (z == 'k' || z == 'K') {
            ArtifactExtensions::Apk
        } else if (x == 'i' || x == 'I') && (y == 'p' || y == 'P') && (z == 'a' || z == 'A') {
            ArtifactExtensions::Ipa
        } else {
            ArtifactExtensions::Aab
        }
    }
}

/// What identifies an iOS package to the installer.
#[derive(Debug)]
pub struct IosMetadata {
    pub bundle_identifier: String,
    pub bundle_version: String,
}

/// What an `IosMetadata` holds, as plain values.
pub struct IosMetadataView {
    pub bundle_identifier: Seq<char>,
    pub bundle_version: Seq<char>,
}

impl IosMetadataView {
    /// Both fields hold at least one character.
    pub open spec fn is_complete(self) -> bool {
        self.bundle_identifier.len() > 0 && self.bundle_version.len() > 0
    }
}

impl View for IosMetadata {
    type V = IosMetadataView;

    open spec fn view(&self) -> IosMetadataView {
        IosMetadataView {
            bundle_identifier: self.bundle_identifier@,
            bundle_version: self.bundle_version@,
        }
    }
}

/// The view of an optional `IosMetadata`.
pub open spec fn opt_metadata(o: Option<IosMetadata>) -> Option<IosMetadataView> {
    match o {
        Some(m) => Some(m@),
        None => None,
    }
}

impl Default for IosMetadata {
    fn default() -> (r: Self)
        ensures
            r@.bundle_identifier.len() == 0,
            r@.bundle_version.len() == 0,
    {
        IosMetadata { bundle_identifier: String::new(), bundle_version: String::new() }
    }
}

impl Clone for IosMetadata {
    fn clone(&self) -> (r: Self)
        ensures
            r@ == self@,
    {
        IosMetadata {
            bundle_identifier: self.bundle_identifier.clone(),
            bundle_version: self.bundle_version.clone(),
        }
    }
}

/// A copy of an optional `IosMetadata`.
pub fn copy_opt_metadata(o: &Option<IosMetadata>) -> (r: Option<IosMetadata>)
    ensures
        opt_metadata(r) == opt_metadata(*o),
{
    match o {
        Some(m) => Some(m.clone()),
        None => None,
    }
}

/// The fields of an upload as they were read, each absent until its part
/// was seen.
#[derive(Debug)]
pub struct CreateArtifact {
    pub branch: Option<String>,
    pub identifier: Option<String>,
    pub mime_type: Option<String>,
    pub original_filename: Option<String>,
    pub extension: Option<ArtifactExtensions>,
    pub size: Option<usize>,
    pub metadata: Option<IosMetadata>,
}

/// What a `CreateArtifact` holds, as plain values.
pub struct CreateArtifactView {
    pub branch: Option<Seq<char>>,
    pub identifier: Option<Seq<char>>,
    pub mime_type: Option<Seq<char>>,
    pub original_filename: Option<Seq<char>>,
    pub extension: Option<ArtifactExtensions>,
    pub size: Option<usize>,
    pub metadata: Option<IosMetadataView>,
}

impl View for CreateArtifact {
    type V = CreateArtifactView;

    open spec fn view(&self) -> CreateArtifactView {
        CreateArtifactView {
            branch: opt_text(self.branch),
            identifier: opt_text(self.identifier),
            mime_type: opt_text(self.mime_type),
            original_filename: opt_text(self.original_filename),
            extension: self.extension,
            size: self.size,
            metadata: opt_metadata(self.metadata),
        }
    }
}

impl Default for CreateArtifact {
    fn default() -> (r: Self)
        ensures
            r@ == CreateArtifactView::empty(),
    {
        CreateArtifact {
            branch: None,
            identifier: None,
            mime_type: None,
            original_filename: None,
            extension: None,
            size: None,
            metadata: None,
        }
    }
}

/// The branch of an upload that names none.
pub const DEFAULT_BRANCH: &'static str = "develop";

/// The identifier of an upload that names none.
pub const DEFAULT_IDENTIFIER: &'static str = "unidentified";

impl CreateArtifactView {
    /// The form before any part was read.
    pub open spec fn empty() -> CreateArtifactView {
        CreateArtifactView {
            branch: None,
            identifier: None,
            mime_type: None,
            original_filename: None,
            extension: None,
            size: None,
            metadata: None,
        }
    }

    /// The branch under which the upload is filed.
    pub open spec fn effective_branch(self) -> Seq<char> {
        match self.branch {
            Some(b) => b,
            None => DEFAULT_BRANCH@,
        }
    }

    /// The identifier under which the upload is filed.
    pub open spec fn effective_identifier(self) -> Seq<char> {
        match self.identifier {
            Some(i) => i,
            None => DEFAULT_IDENTIFIER@,
        }
    }

    /// The kind of the binary; an Android package where none was told.
    pub open spec fn effective_extension(self) -> ArtifactExtensions {
        match self.extension {
            Some(e) => e,
            None => ArtifactExtensions::Apk,
        }
    }

    /// An iOS package whose bundle identifier or bundle version is absent
    /// or empty.
    pub open spec fn lacks_ios_metadata(self) -> bool {
        self.effective_extension() == ArtifactExtensions::Ipa && match self.metadata {
            Some(m) => !m.is_complete(),
            None => true,
        }
    }

    /// The file name, the content type or the size is absent.
    pub open spec fn lacks_file_data(self) -> bool {
        self.original_filename is None || self.mime_type is None || self.size is None
    }

    /// The metadata that are stored: those supplied for an iOS package, none
    /// for any other kind, whatever was supplied.
    pub open spec fn stored_metadata(self) -> Option<IosMetadataView> {
        if self.effective_extension() == ArtifactExtensions::Ipa {
            self.metadata
        } else {
            None
        }
    }
}

/// An upload that passed validation, with the place of its binary.
#[derive(Debug)]
pub struct ArtifactToCreate {
    extension: ArtifactExtensions,
    path: String,
    original_filename: String,
    mime_type: String,
    size: usize,
    project_id: String,
    branch: String,
    identifier: String,
    ios_metdata: Option<IosMetadata>,
}

/// What an `ArtifactToCreate` holds, as plain values.
pub struct ArtifactToCreateView {
    pub extension: ArtifactExtensions,
    pub path: Seq<char>,
    pub original_filename: Seq<char>,
    pub mime_type: Seq<char>,
    pub size: usize,
    pub project_id: Seq<char>,
    pub branch: Seq<char>,
    pub identifier: Seq<char>,
    pub ios_metadata: Option<IosMetadataView>,
}

/// Metadata are present, and complete, exactly for an iOS package.
pub open spec fn metadata_fit(
    extension: ArtifactExtensions,
    ios_metadata: Option<IosMetadataView>,
) -> bool {
    match ios_metadata {
        Some(m) => extension == ArtifactExtensions::Ipa && m.is_complete(),
        None => extension != ArtifactExtensions::Ipa,
    }
}

impl ArtifactToCreateView {
    /// Metadata are present, and complete, exactly for an iOS package.
    pub open spec fn well_formed(self) -> bool {
        metadata_fit(self.extension, self.ios_metadata)
    }

    /// What `ArtifactToCreate::new` makes of an accepted upload.
    pub open spec fn from_upload(
        data: CreateArtifactView,
        project_id: Seq<char>,
        uploads_path: Seq<char>,
    ) -> ArtifactToCreateView {
        ArtifactToCreateView {
            extension: data.effective_extension(),
            path: file_path(
                uploads_path,
                project_id,
                data.effective_branch(),
                data.effective_identifier(),
                data.effective_extension().suffix(),
            ),
            original_filename: data.original_filename->0,
            mime_type: data.mime_type->0,
            size: data.size->0,
            project_id: project_id,
            branch: data.effective_branch(),
            identifier: data.effective_identifier(),
            ios_metadata: data.stored_metadata(),
        }
    }
}

impl View for ArtifactToCreate {
    type V = ArtifactToCreateView;

    closed spec fn view(&self) -> ArtifactToCreateView {
        ArtifactToCreateView {
            extension: self.extension,
            path: self.path@,
            original_filename: self.original_filename@,
            mime_type: self.mime_type@,
            size: self.size,
            project_id: self.project_id@,
            branch: self.branch@,
            identifier: self.identifier@,
            ios_metadata: opt_metadata(self.ios_metdata),
        }
    }
}

impl ArtifactToCreate {
    #[verifier::type_invariant]
    spec fn holds_invariant(self) -> bool {
        self@.well_formed()
    }

    /// Validates an upload for `project_id` and resolves the place of its
    /// binary under `uploads_path`.
    ///
    /// An iOS package without complete metadata is refused with
    /// `InvalidIosMetadata`; next, an upload without file name, content type
    /// or size is refused with `Never`. Every other upload is accepted. An
    /// absent branch is filed under `develop`, an absent identifier under
    /// `unidentified`.
    pub fn new(data: CreateArtifact, project_id: String, uploads_path: &str) -> (r: Result<
        ArtifactToCreate,
        AppError,
    >)
        ensures
            match r {
                Ok(a) => {
                    &&& !data@.lacks_ios_metadata()
                    &&& !data@.lacks_file_data()
                    &&& a@ == ArtifactToCreateView::from_upload(data@, project_id@, uploads_path@)
                    &&& a@.well_formed()
                },
                Err(AppError::InvalidIosMetadata) => data@.lacks_ios_metadata(),
                Err(AppError::Never) => !data@.lacks_ios_metadata() && data@.lacks_file_data(),
                Err(_) => false,
            },
    {
        let branch = match data.branch {
            Some(b) => b,
            None => String::from_str(DEFAULT_BRANCH),
        };
        let identifier = match data.identifier {
            Some(i) => i,
            None => String::from_str(DEFAULT_IDENTIFIER),
        };
        let extension = match data.extension {
            Some(e) => e,
            None => ArtifactExtensions::Apk,
        };
        let ios_metdata = match extension {
            ArtifactExtensions::Ipa => {
                match data.metadata {
                    Some(m) => {
                        if m.bundle_identifier.as_str().is_empty()
                            || m.bundle_version.as_str().is_empty() {
                            return Err(AppError::InvalidIosMetadata);
                        }
                        Some(m)
                    },
                    None => {
                        return Err(AppError::InvalidIosMetadata);
                    },
                }
            },
            _ => None,
        };
        let path = create_file_path(
            uploads_path,
            &project_id,
            &branch,
            &identifier,
            &extension.to_lowercase(),
        );
        match (data.original_filename, data.mime_type, data.size) {
            (Some(original_filename), Some(mime_type), Some(size)) => Ok(
                ArtifactToCreate {
                    original_filename,
                    mime_type,
                    size,
                    branch,
                    extension,
                    identifier,
                    path,
                    project_id,
                    ios_metdata,
                },
            ),
            _ => Err(AppError::Never),
        }
    }
}

/// A stored artifact as plain fields, as a store reads and writes it.
/// Nothing is claimed of how the fields fit together: see `Artifact`.
#[derive(Debug)]
pub struct ArtifactRecord {
    pub id: String,
    pub original_filename: String,
    pub branch: String,
    pub extension: ArtifactExtensions,
    pub path: String,
    pub project_id: String,
    pub project: Option<Project>,
    pub mime_type: String,
    pub size: usize,
    pub identifier: String,
    pub created_at: u64,
    pub qrcode: Option<String>,
    pub ios_metadata: Option<IosMetadata>,
}

/// What an artifact holds, as plain values.
pub struct ArtifactView {
    pub id: Seq<char>,
    pub original_filename: Seq<char>,
    pub branch: Seq<char>,
    pub extension: ArtifactExtensions,
    pub path: Seq<char>,
    pub project_id: Seq<char>,
    pub project: Option<ProjectView>,
    pub mime_type: Seq<char>,
    pub size: usize,
    pub identifier: Seq<char>,
    pub created_at: u64,
    pub qrcode: Option<Seq<char>>,
    pub ios_metadata: Option<IosMetadataView>,
}

/// The part of an artifact that a listing by project shows: neither its
/// place on disk, nor its size, nor its content type.
#[derive(Debug)]
pub struct ArtifactSummary {
    pub id: String,
    pub extension: ArtifactExtensions,
    pub created_at: u64,
    pub branch: String,
    pub original_filename: String,
    pub identifier: String,
    pub ios_metadata: Option<IosMetadata>,
    pub qrcode: Option<String>,
}

/// What an `ArtifactSummary` holds, as plain values.
pub struct ArtifactSummaryView {
    pub id: Seq<char>,
    pub extension: ArtifactExtensions,
    pub created_at: u64,
    pub branch: Seq<char>,
    pub original_filename: Seq<char>,
    pub identifier: Seq<char>,
    pub ios_metadata: Option<IosMetadataView>,
    pub qrcode: Option<Seq<char>>,
}

impl View for ArtifactSummary {
    type V = ArtifactSummaryView;

    open spec fn view(&self) -> ArtifactSummaryView {
        ArtifactSummaryView {
            id: self.id@,
            extension: self.extension,
            created_at: self.created_at,
            branch: self.branch@,
            original_filename: self.original_filename@,
            identifier: self.identifier@,
            ios_metadata: opt_metadata(self.ios_metadata),
            qrcode: opt_text(self.qrcode),
        }
    }
}

impl View for ArtifactRecord {
    type V = ArtifactView;

    open spec fn view(&self) -> ArtifactView {
        ArtifactView {
            id: self.id@,
            original_filename: self.original_filename@,
            branch: self.branch@,
            extension: self.extension,
            path: self.path@,
            project_id: self.project_id@,
            project: opt_project(self.project),
            mime_type: self.mime_type@,
            size: self.size,
            identifier: self.identifier@,
            created_at: self.created_at,
            qrcode: opt_text(self.qrcode),
            ios_metadata: opt_metadata(self.ios_metadata),
        }
    }
}

/// The creation time in milliseconds for a clock reading in whole seconds;
/// the largest `u64` where the product does not fit.
pub open spec fn to_millis(seconds: u64) -> u64 {
    if seconds <= u64::MAX / 1000 {
        (seconds * 1000) as u64
    } else {
        u64::MAX
    }
}

impl ArtifactView {
    /// Metadata are present, and complete, exactly for an iOS package.
    pub open spec fn well_formed(self) -> bool {
        metadata_fit(self.extension, self.ios_metadata)
    }

    /// The artifact made from a validated upload: its fields, the given id
    /// and creation time, no QR code and no joined project.
    pub open spec fn created(data: ArtifactToCreateView, id: Seq<char>, created_at: u64)
        -> ArtifactView {
        ArtifactView {
            id: id,
            original_filename: data.original_filename,
            branch: data.branch,
            extension: data.extension,
            path: data.path,
            project_id: data.project_id,
            project: None,
            mime_type: data.mime_type,
            size: data.size,
            identifier: data.identifier,
            created_at: created_at,
            qrcode: None,
            ios_metadata: data.ios_metadata,
        }
    }

    /// The same artifact with `qrcode` as its QR code.
    pub open spec fn with_qrcode(self, qrcode: Seq<char>) -> ArtifactView {
        ArtifactView { qrcode: Some(qrcode), ..self }
    }

    /// The same artifact with `project` joined to it.
    pub open spec fn with_project(self, project: Option<ProjectView>) -> ArtifactView {
        ArtifactView { project: project, ..self }
    }

    /// The part shown in a listing by project.
    pub open spec fn summary(self) -> ArtifactSummaryView {
        ArtifactSummaryView {
            id: self.id,
            extension: self.extension,
            created_at: self.created_at,
            branch: self.branch,
            original_filename: self.original_filename,
            identifier: self.identifier,
            ios_metadata: self.ios_metadata,
            qrcode: self.qrcode,
        }
    }

    /// What the install manifest is rendered from: the id, the bundle
    /// identifier, the bundle version and the project's name. Absent where
    /// the metadata or the joined project is.
    pub open spec fn plist_data(self) -> Option<(Seq<char>, Seq<char>, Seq<char>, Seq<char>)> {
        match (self.ios_metadata, self.project) {
            (Some(m), Some(p)) => Some((self.id, m.bundle_identifier, m.bundle_version, p.name)),
            _ => None,
        }
    }
}

/// An artifact: one uploaded binary and what is stored about it.
///
/// Every value of this type holds metadata exactly if it is an iOS package,
/// and then both the bundle identifier and the bundle version are non-empty.
#[derive(Debug)]
pub struct Artifact {
    id: String,
    original_filename: String,
    branch: String,
    extension: ArtifactExtensions,
    path: String,
    project_id: String,
    project: Option<Project>,
    mime_type: String,
    size: usize,
    identifier: String,
    created_at: u64,
    qrcode: Option<String>,
    ios_metadata: Option<IosMetadata>,
}

impl View for Artifact {
    type V = ArtifactView;

    closed spec fn view(&self) -> ArtifactView {
        ArtifactView {
            id: self.id@,
            original_filename: self.original_filename@,
            branch: self.branch@,
            extension: self.extension,
            path: self.path@,
            project_id: self.project_id@,
            project: opt_project(self.project),
            mime_type: self.mime_type@,
            size: self.size,
            identifier: self.identifier@,
            created_at: self.created_at,
            qrcode: opt_text(self.qrcode),
            ios_metadata: opt_metadata(self.ios_metadata),
        }
    }
}

/// Reads the clock with `SystemTime::elapsed` on the Unix epoch and gives
/// the whole seconds that have passed since.
///
/// Trusted, and nothing is claimed: the reading depends on the clock.
#[verifier::external_body]
fn seconds_since_epoch() -> (r: Result<u64, std::time::SystemTimeError>) {
    let elapsed = std::time::SystemTime::UNIX_EPOCH.elapsed()?;
    Ok(elapsed.as_secs())
}

/// Draws a fresh `bson::oid::ObjectId` and writes it with its `Display`.
///
/// Trusted: whatever was drawn, the text is 24 lower-case hexadecimal
/// digits. The call reads the clock and panics where the clock is set
/// before 1970 or past 2106; no argument could keep it from that.
#[verifier::external_body]
fn fresh_object_id() -> (r: String)
    ensures
        r@.len() == 24,
        all_lower_hex(r@),
{
    bson::oid::ObjectId::new().to_string()
}

impl Artifact {
    #[verifier::type_invariant]
    spec fn holds_invariant(self) -> bool {
        self@.well_formed()
    }

    /// Makes the artifact of a validated upload, with a fresh id and the
    /// current time in milliseconds, cut to whole seconds.
    ///
    /// Fails only where the clock is set before the Unix epoch. Drawing the
    /// id panics where the clock is set past the year 2106.
    pub fn new(data: ArtifactToCreate) -> (r: Result<Artifact, std::time::SystemTimeError>)
        ensures
            r matches Ok(a) ==> {
                &&& a@ == ArtifactView::created(data@, a@.id, a@.created_at)
                &&& a@.id.len() == 24
                &&& all_lower_hex(a@.id)
                &&& exists|seconds: u64| a@.created_at == to_millis(seconds)
                &&& a@.well_formed()
            },
    {
        let seconds = match seconds_since_epoch() {
            Ok(s) => s,
            Err(e) => {
                return Err(e);
            },
        };
        let created_at = if seconds <= u64::MAX / 1000 {
            seconds * 1000
        } else {
            u64::MAX
        };
        assert(created_at == to_millis(seconds));
        let id = fresh_object_id();
        Ok(Artifact::assemble(data, id, created_at))
    }

    /// Makes the artifact of a validated upload under the given id and
    /// creation time.
    pub fn assemble(data: ArtifactToCreate, id: String, created_at: u64) -> (r: Artifact)
        ensures
            r@ == ArtifactView::created(data@, id@, created_at),
            r@.well_formed(),
    {
        proof {
            use_type_invariant(&data);
        }
        Artifact {
            id,
            branch: data.branch,
            extension: data.extension,
            identifier: data.identifier,
            mime_type: data.mime_type,
            original_filename: data.original_filename,
            path: data.path,
            project_id: data.project_id,
            size: data.size,
            ios_metadata: data.ios_metdata,
            created_at,
            qrcode: None,
            project: None,
        }
    }

    /// Takes a stored record for an artifact, if its metadata fit its kind.
    pub fn from_record(record: ArtifactRecord) -> (r: Result<Artifact, AppError>)
        ensures
            match r {
                Ok(a) => a@ == record@ && record@.well_formed(),
                Err(AppError::InvalidIosMetadata) => !record@.well_formed(),
                Err(_) => false,
            },
    {
        let fits = match &record.ios_metadata {
            Some(m) => {
                record.extension == ArtifactExtensions::Ipa
                    && !m.bundle_identifier.as_str().is_empty()
                    && !m.bundle_version.as_str().is_empty()
            },
            None => record.extension != ArtifactExtensions::Ipa,
        };
        if !fits {
            return Err(AppError::InvalidIosMetadata);
        }
        Ok(
            Artifact {
                id: record.id,
                original_filename: record.original_filename,
                branch: record.branch,
                extension: record.extension,
                path: record.path,
                project_id: record.project_id,
                project: record.project,
                mime_type: record.mime_type,
                size: record.size,
                identifier: record.identifier,
                created_at: record.created_at,
                qrcode: record.qrcode,
                ios_metadata: record.ios_metadata,
            },
        )
    }

    /// The artifact as plain fields.
    pub fn to_record(&self) -> (r: ArtifactRecord)
        ensures
            r@ == self@,
            r@.well_formed(),
    {
        proof {
            use_type_invariant(self);
        }
        ArtifactRecord {
            id: self.id.clone(),
            original_filename: self.original_filename.clone(),
            branch: self.branch.clone(),
            extension: self.extension,
            path: self.path.clone(),
            project_id: self.project_id.clone(),
            project: copy_opt_project(&self.project),
            mime_type: self.mime_type.clone(),
            size: self.size,
            identifier: self.identifier.clone(),
            created_at: self.created_at,
            qrcode: copy_opt_text(&self.qrcode),
            ios_metadata: copy_opt_metadata(&self.ios_metadata),
        }
    }

    /// The kind of the binary.
    pub fn get_extension(&self) -> (r: &ArtifactExtensions)
        ensures
            *r == self@.extension,
    {
        &self.extension
    }

    /// The place of the binary on disk.
    pub fn get_path(&self) -> (r: &String)
        ensures
            r@ == self@.path,
    {
        &self.path
    }

    /// The file name, the content type and the size in bytes.
    pub fn get_download_data(&self) -> (r: (&String, &String, &usize))
        ensures
            r.0@ == self@.original_filename,
            r.1@ == self@.mime_type,
            *r.2 == self@.size,
    {
        (&self.original_filename, &self.mime_type, &self.size)
    }

    /// The id, the bundle identifier, the bundle version and the project's
    /// name, for the install manifest. Refused with `InvalidIosMetadata`
    /// where the artifact has no metadata or no joined project.
    pub fn get_plist_data(&self) -> (r: Result<(String, String, String, String), AppError>)
        ensures
            match r {
                Ok(t) => self@.plist_data() == Some((t.0@, t.1@, t.2@, t.3@)),
                Err(AppError::InvalidIosMetadata) => self@.plist_data() is None,
                Err(_) => false,
            },
    {
        match (&self.ios_metadata, &self.project) {
            (Some(ios_metadata), Some(project)) => Ok(
                (
                    self.id.clone(),
                    ios_metadata.bundle_identifier.clone(),
                    ios_metadata.bundle_version.clone(),
                    project.name.clone(),
                ),
            ),
            _ => Err(AppError::InvalidIosMetadata),
        }
    }

    /// The id.
    pub fn get_id(&self) -> (r: &String)
        ensures
            r@ == self@.id,
    {
        &self.id
    }

    /// The branch under which the artifact is filed.
    pub fn get_branch(&self) -> (r: &String)
        ensures
            r@ == self@.branch,
    {
        &self.branch
    }

    /// The id of the project that owns the artifact.
    pub fn get_project_id(&self) -> (r: &String)
        ensures
            r@ == self@.project_id,
    {
        &self.project_id
    }

    /// The creation time, in milliseconds since the epoch.
    pub fn get_created_at(&self) -> (r: u64)
        ensures
            r == self@.created_at,
    {
        self.created_at
    }

    /// The QR code of the install link, once it was drawn.
    pub fn get_qrcode(&self) -> (r: &Option<String>)
        ensures
            opt_text(*r) == self@.qrcode,
    {
        &self.qrcode
    }

    /// The metadata of an iOS package; none for any other kind.
    pub fn get_ios_metadata(&self) -> (r: &Option<IosMetadata>)
        ensures
            opt_metadata(*r) == self@.ios_metadata,
            self@.well_formed(),
    {
        proof {
            use_type_invariant(self);
        }
        &self.ios_metadata
    }

    /// The same artifact with `qrcode` as its QR code; no other field
    /// changes.
    pub fn with_qrcode(self, qrcode: String) -> (r: Artifact)
        ensures
            r@ == self@.with_qrcode(qrcode@),
            r@.well_formed(),
    {
        proof {
            use_type_invariant(&self);
        }
        Artifact { qrcode: Some(qrcode), ..self }
    }

    /// The same artifact with `project` joined to it; no other field
    /// changes.
    pub fn with_project(self, project: Option<Project>) -> (r: Artifact)
        ensures
            r@ == self@.with_project(opt_project(project)),
            r@.well_formed(),
    {
        proof {
            use_type_invariant(&self);
        }
        Artifact { project, ..self }
    }

    /// The part of the artifact that a listing by project shows.
    pub fn summary(&self) -> (r: ArtifactSummary)
        ensures
            r@ == self@.summary(),
    {
        ArtifactSummary {
            id: self.id.clone(),
            extension: self.extension,
            created_at: self.created_at,
            branch: self.branch.clone(),
            original_filename: self.original_filename.clone(),
            identifier: self.identifier.clone(),
            ios_metadata: copy_opt_metadata(&self.ios_metadata),
            qrcode: copy_opt_text(&self.qrcode),
        }
    }
}

impl Clone for Artifact {
    fn clone(&self) -> (r: Self)
        ensures
            r@ == self@,
    {
        proof {
            use_type_invariant(self);
        }
        Artifact {
            id: self.id.clone(),
            original_filename: self.original_filename.clone(),
            branch: self.branch.clone(),
            extension: self.extension,
            path: self.path.clone(),
            project_id: self.project_id.clone(),
            project: copy_opt_project(&self.project),
            mime_type: self.mime_type.clone(),
            size: self.size,
            identifier: self.identifier.clone(),
            created_at: self.created_at,
            qrcode: copy_opt_text(&self.qrcode),
            ios_metadata: copy_opt_metadata(&self.ios_metadata),
        }
    }
}

} // verus!
