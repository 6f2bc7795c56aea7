//! The artifact requests: upload, download and the install manifest.

use vstd::prelude::*;
use vstd::string::StringExecFns;
use crate::error::AppError;
use crate::helpers::artifact::{
    create_directory_path,
    directory_path,
    download_url,
    parse_plist_template,
    plist_document,
};
use crate::helpers::markup::{is_plain_text, is_well_formed};
use crate::helpers::text::{decimal, decimal_text};
use crate::link::{
    create_install_url,
    encode_qrcode,
    install_url,
    is_qrcode_data_uri,
    qr_svg,
    qrcode_data_uri,
    ErrorCorrection,
    QRCODE_SIZE,
};
use crate::helpers::uuid::all_lower_hex;
use crate::schemas::artifact::{
    to_millis,
    Artifact,
    ArtifactToCreate,
    ArtifactToCreateView,
    ArtifactView,
};
use crate::schemas::project::Project;
use crate::settings::Settings;
use crate::store::{
    distinct_ids,
    find_project,
    holds_id,
    lookup,
    project_views,
    ArtifactStore,
};
use crate::upload::{UploadForm, UploadFormView};

verus! {

/// The view of an optional artifact.
pub open spec fn opt_artifact(o: Option<Artifact>) -> Option<ArtifactView> {
    match o {
        Some(a) => Some(a@),
        None => None,
    }
}

/// The binary to stream for a download: the place of the found artifact's
/// binary; `NotFound` exactly where no artifact was found.
pub fn download_path(found: Option<Artifact>) -> (r: Result<String, AppError>)
    ensures
        match r {
            Ok(path) => opt_artifact(found) matches Some(a) && path@ == a.path,
            Err(AppError::NotFound) => found is None,
            Err(_) => false,
        },
{
    match found {
        Some(artifact) => Ok(artifact.get_path().clone()),
        None => Err(AppError::NotFound),
    }
}

/// What precedes the file name in `Content-Disposition`.
pub const ATTACHMENT_PREFIX: &'static str = "attachment; filename=";

/// The headers that announce a download.
#[derive(Debug)]
pub struct DownloadHeaders {
    /// `Content-Type`: the content type given at upload.
    pub content_type: String,
    /// `Content-Length`: the size in bytes, in base ten.
    pub content_length: String,
    /// `Content-Disposition`: an attachment under the uploaded file name.
    pub content_disposition: String,
}

/// The headers for a download of the found artifact; `NotFound` exactly
/// where no artifact was found.
pub fn download_headers(found: Option<Artifact>) -> (r: Result<DownloadHeaders, AppError>)
    ensures
        match r {
            Ok(headers) => {
                &&& opt_artifact(found) matches Some(a)
                &&& headers.content_type@ == a.mime_type
                &&& headers.content_length@ == decimal(a.size as nat)
                &&& headers.content_disposition@ == ATTACHMENT_PREFIX@ + a.original_filename
            },
            Err(AppError::NotFound) => found is None,
            Err(_) => false,
        },
{
    match found {
        Some(artifact) => {
            let (original_filename, mime_type, size) = artifact.get_download_data();
            let mut content_disposition = String::from_str(ATTACHMENT_PREFIX);
            content_disposition.append(original_filename.as_str());
            Ok(
                DownloadHeaders {
                    content_type: mime_type.clone(),
                    content_length: decimal_text(*size),
                    content_disposition,
                },
            )
        },
        None => Err(AppError::NotFound),
    }
}

/// The content type of the install manifest.
pub const PLIST_CONTENT_TYPE: &'static str = "application/xml";

/// The `Content-Disposition` of the install manifest.
pub const PLIST_CONTENT_DISPOSITION: &'static str = "attachment; filename=ios.plist";

/// The answer that carries an install manifest.
#[derive(Debug)]
pub struct PlistResponse {
    pub content_type: String,
    pub content_disposition: String,
    pub body: String,
}

/// The install manifest of an artifact, where it has one: the document for
/// the address of its binary, its bundle identifier and version, and the
/// name of its project.
pub open spec fn plist_of(public_url: Seq<char>, artifact: ArtifactView) -> Option<Seq<char>> {
    match artifact.plist_data() {
        Some(data) => Some(
            plist_document(download_url(public_url, data.0), data.1, data.2, data.3),
        ),
        None => None,
    }
}

/// Whether what the install manifest of an artifact is rendered from is
/// plain text: the public address, the id, the bundle identifier, the
/// bundle version and the name of the project hold only characters that
/// XML admits, neither `<` nor `&`, and nowhere `]]>`.
pub open spec fn has_plain_values(public_url: Seq<char>, artifact: ArtifactView) -> bool {
    match artifact.plist_data() {
        Some(data) => {
            &&& is_plain_text(public_url)
            &&& is_plain_text(data.0)
            &&& is_plain_text(data.1)
            &&& is_plain_text(data.2)
            &&& is_plain_text(data.3)
        },
        None => false,
    }
}

/// The install manifest of the found artifact, as served under
/// `public_url`. The manifest is a well-formed document wherever the
/// values that it is rendered from are plain text.
///
/// `NotFound` exactly where no artifact was found; `InvalidIosMetadata`
/// exactly where the artifact found has no metadata or no joined project.
pub fn ios_plist(found: Option<Artifact>, public_url: &str) -> (r: Result<PlistResponse, AppError>)
    ensures
        match r {
            Ok(response) => {
                &&& opt_artifact(found) matches Some(a)
                &&& plist_of(public_url@, a) == Some(response.body@)
                &&& has_plain_values(public_url@, a) ==> is_well_formed(response.body@)
                &&& response.content_type@ == PLIST_CONTENT_TYPE@
                &&& response.content_disposition@ == PLIST_CONTENT_DISPOSITION@
            },
            Err(AppError::NotFound) => found is None,
            Err(AppError::InvalidIosMetadata) => {
                &&& opt_artifact(found) matches Some(a)
                &&& plist_of(public_url@, a) is None
            },
            Err(_) => false,
        },
{
    match found {
        Some(artifact) => {
            match artifact.get_plist_data() {
                Ok((artifact_id, bundle_identifier, bundle_version, app_name)) => {
                    let body = parse_plist_template(
                        public_url,
                        artifact_id.as_str(),
                        bundle_identifier.as_str(),
                        bundle_version.as_str(),
                        app_name.as_str(),
                    );
                    Ok(
                        PlistResponse {
                            content_type: String::from_str(PLIST_CONTENT_TYPE),
                            content_disposition: String::from_str(PLIST_CONTENT_DISPOSITION),
                            body,
                        },
                    )
                },
                Err(e) => Err(e),
            }
        },
        None => Err(AppError::NotFound),
    }
}

/// The record with the id, if the store has one.
fn find(store: &ArtifactStore, artifact_id: &String) -> (r: Option<Artifact>)
    ensures
        opt_artifact(r) == lookup(store@, artifact_id@),
{
    match store.get(artifact_id) {
        Ok(artifact) => Some(artifact),
        Err(_) => None,
    }
}

/// The place of the binary of the artifact with the id; `NotFound` exactly
/// where the store has no such artifact.
pub fn download_artifact(store: &ArtifactStore, artifact_id: &String) -> (r: Result<
    String,
    AppError,
>)
    ensures
        match r {
            Ok(path) => lookup(store@, artifact_id@) matches Some(a) && path@ == a.path,
            Err(AppError::NotFound) => lookup(store@, artifact_id@) is None,
            Err(_) => false,
        },
{
    download_path(find(store, artifact_id))
}

/// The headers for a download of the artifact with the id; `NotFound`
/// exactly where the store has no such artifact.
pub fn get_download_headers(store: &ArtifactStore, artifact_id: &String) -> (r: Result<
    DownloadHeaders,
    AppError,
>)
    ensures
        match r {
            Ok(headers) => {
                &&& lookup(store@, artifact_id@) matches Some(a)
                &&& headers.content_type@ == a.mime_type
                &&& headers.content_length@ == decimal(a.size as nat)
                &&& headers.content_disposition@ == ATTACHMENT_PREFIX@ + a.original_filename
            },
            Err(AppError::NotFound) => lookup(store@, artifact_id@) is None,
            Err(_) => false,
        },
{
    download_headers(find(store, artifact_id))
}

/// The artifact with the id as the install manifest sees it: joined with
/// the first of the projects that has its project id.
pub open spec fn joined(
    records: Seq<ArtifactView>,
    projects: Seq<crate::schemas::project::ProjectView>,
    artifact_id: Seq<char>,
) -> Option<ArtifactView> {
    match lookup(records, artifact_id) {
        Some(record) => Some(record.with_project(find_project(projects, record.project_id))),
        None => None,
    }
}

/// The install manifest of the artifact with the id; a well-formed
/// document wherever the values that it is rendered from are plain text.
///
/// `NotFound` exactly where the store has no such artifact, whatever the
/// projects are; `InvalidIosMetadata` exactly where it has one that is
/// without metadata or whose project is not among `projects`.
pub fn get_ios_plist(
    store: &ArtifactStore,
    projects: &Vec<Project>,
    artifact_id: &String,
    public_url: &str,
) -> (r: Result<PlistResponse, AppError>)
    ensures
        match r {
            Ok(response) => {
                &&& joined(store@, project_views(projects@), artifact_id@) matches Some(a)
                &&& plist_of(public_url@, a) == Some(response.body@)
                &&& has_plain_values(public_url@, a) ==> is_well_formed(response.body@)
                &&& response.content_type@ == PLIST_CONTENT_TYPE@
                &&& response.content_disposition@ == PLIST_CONTENT_DISPOSITION@
            },
            Err(AppError::NotFound) => lookup(store@, artifact_id@) is None,
            Err(AppError::InvalidIosMetadata) => {
                &&& joined(store@, project_views(projects@), artifact_id@) matches Some(a)
                &&& plist_of(public_url@, a) is None
            },
            Err(_) => false,
        },
{
    let found = match store.get_with_project(artifact_id, projects) {
        Ok(artifact) => Some(artifact),
        Err(_) => None,
    };
    ios_plist(found, public_url)
}

/// What `validate_upload` makes of a form that it accepts.
pub open spec fn validated(form: UploadFormView, project_id: Seq<char>, uploads_path: Seq<char>)
    -> ArtifactToCreateView {
    ArtifactToCreateView::from_upload(form.validated_fields(), project_id, uploads_path)
}

/// Validates a form once every part was read, and resolves the place of the
/// binary: nothing is stored or written before this has passed.
///
/// Refused, in this order: an iOS package without complete metadata with
/// `InvalidIosMetadata`; a form without a file with `FileMissing`; a file
/// that was read without its name and content type with `Never`.
pub fn validate_upload(form: UploadForm, project_id: String, uploads_path: &str) -> (r: Result<
    (ArtifactToCreate, Vec<u8>),
    AppError,
>)
    ensures
        match r {
            Ok((data, content)) => {
                &&& !form@.lacks_ios_metadata()
                &&& !form@.lacks_file()
                &&& !form@.fields.lacks_file_data()
                &&& data@ == validated(form@, project_id@, uploads_path@)
                &&& data@.well_formed()
                &&& Some(content@) == form@.file_content
                &&& data@.size == content.len()
            },
            Err(AppError::InvalidIosMetadata) => form@.lacks_ios_metadata(),
            Err(AppError::FileMissing) => !form@.lacks_ios_metadata() && form@.lacks_file(),
            Err(AppError::Never) => {
                &&& !form@.lacks_ios_metadata()
                &&& !form@.lacks_file()
                &&& form@.fields.lacks_file_data()
            },
            Err(_) => false,
        },
{
    let upload = match form.finish() {
        Ok(upload) => upload,
        Err(e) => {
            return Err(e);
        },
    };
    match ArtifactToCreate::new(upload.data, project_id, uploads_path) {
        Ok(data) => Ok((data, upload.content)),
        Err(e) => Err(e),
    }
}

/// The install link of an artifact, by its view.
pub open spec fn install_url_of(public_url: Seq<char>, artifact: ArtifactView) -> Seq<char> {
    install_url(public_url, artifact.id, artifact.extension)
}

/// The QR image of an artifact's install link, where one can be drawn.
pub open spec fn qr_svg_of(public_url: Seq<char>, artifact: ArtifactView) -> Option<Seq<char>> {
    qr_svg(install_url_of(public_url, artifact), ErrorCorrection::Low, QRCODE_SIZE)
}

/// Stores a new artifact, then draws its install link as a QR code and
/// stores that with it: two writes, one after the other.
///
/// Refused with `SurrealInternalError` exactly where the id is taken; the
/// store then stays as it was. Otherwise refused with `QrCodeError` exactly
/// where no QR code can be drawn for the link; the artifact then stays in
/// the store without one. Otherwise the artifact is returned as stored,
/// with its QR code.
pub fn publish_artifact(store: &mut ArtifactStore, artifact: Artifact, public_url: &str) -> (r:
    Result<Artifact, AppError>)
    ensures
        match r {
            Ok(a) => {
                &&& !holds_id(old(store)@, artifact@.id)
                &&& qr_svg_of(public_url@, artifact@) matches Some(svg)
                &&& a@ == artifact@.with_qrcode(qrcode_data_uri(svg))
                &&& is_qrcode_data_uri(a@.qrcode->0)
                &&& final(store)@ == old(store)@.push(a@)
                &&& lookup(final(store)@, a@.id) == Some(a@)
            },
            Err(AppError::SurrealInternalError(_)) => {
                &&& holds_id(old(store)@, artifact@.id)
                &&& final(store)@ == old(store)@
            },
            Err(AppError::QrCodeError(_)) => {
                &&& !holds_id(old(store)@, artifact@.id)
                &&& qr_svg_of(public_url@, artifact@) is None
                &&& final(store)@ == old(store)@.push(artifact@)
            },
            Err(_) => false,
        },
        distinct_ids(final(store)@),
{
    let ghost before = store@;
    let created = match store.create(artifact) {
        Ok(created) => created,
        Err(e) => {
            return Err(e);
        },
    };
    let url = create_install_url(public_url, &created);
    let qrcode = match encode_qrcode(url.as_str()) {
        Ok(qrcode) => qrcode,
        Err(e) => {
            return Err(e);
        },
    };
    proof {
        let n = before.len() as int;
        assert(store@[n] == artifact@);
        crate::store::lemma_lookup_at(store@, n);
    }
    match store.update_qrcode(created.get_id(), qrcode) {
        Ok(updated) => {
            proof {
                assert(store@ =~= before.push(updated@));
                crate::store::lemma_lookup_at(store@, before.len() as int);
            }
            Ok(updated)
        },
        Err(e) => Err(e),
    }
}

/// An upload that was taken in: the artifact as stored, the directory that
/// must exist for its binary, and the bytes to write at the artifact's
/// path.
#[derive(Debug)]
pub struct StoredUpload {
    pub artifact: Artifact,
    pub directory: String,
    pub content: Vec<u8>,
}

/// Takes an upload for `project_id` into the store.
///
/// The form is validated first, and a form that is refused leaves the store
/// as it was: with `InvalidIosMetadata` an iOS package without complete
/// metadata, with `FileMissing` a form without file, with `Never` a file
/// without name or content type. The artifact then gets a fresh id and the
/// current time, which fails with `SystemTimeError` where the clock is set
/// before the epoch, and is published as `publish_artifact` says.
///
/// A taken id means that the store holds a record under the id that was
/// drawn: 24 lower-case hexadecimal digits. Where no QR code can be drawn,
/// the record that stays in the store is the new artifact without one.
///
/// The artifact returned is the one that its id finds in the store
/// afterwards. Its id is 24 lower-case hexadecimal digits and its creation
/// time a clock reading in whole seconds, in milliseconds. Its size is the
/// number of bytes handed back for writing, which are the bytes of the
/// form's file.
pub fn create_artifact(
    store: &mut ArtifactStore,
    project_id: String,
    form: UploadForm,
    settings: &Settings,
) -> (r: Result<StoredUpload, AppError>)
    ensures
        form@.lacks_ios_metadata() ==> r matches Err(AppError::InvalidIosMetadata),
        (!form@.lacks_ios_metadata() && form@.lacks_file()) ==> r matches Err(
            AppError::FileMissing,
        ),
        (!form@.lacks_ios_metadata() && !form@.lacks_file() && form@.fields.lacks_file_data())
            ==> r matches Err(AppError::Never),
        match r {
            Ok(out) => {
                let data = validated(form@, project_id@, settings.uploads_path@);
                let made = ArtifactView::created(data, out.artifact@.id, out.artifact@.created_at);
                &&& !form@.lacks_ios_metadata()
                &&& !form@.lacks_file()
                &&& !form@.fields.lacks_file_data()
                &&& !holds_id(old(store)@, out.artifact@.id)
                &&& qr_svg_of(settings.public_url@, made) matches Some(svg)
                &&& out.artifact@ == made.with_qrcode(qrcode_data_uri(svg))
                &&& out.artifact@.id.len() == 24
                &&& all_lower_hex(out.artifact@.id)
                &&& exists|seconds: u64| out.artifact@.created_at == to_millis(seconds)
                &&& is_qrcode_data_uri(out.artifact@.qrcode->0)
                &&& final(store)@ == old(store)@.push(out.artifact@)
                &&& lookup(final(store)@, out.artifact@.id) == Some(out.artifact@)
                &&& Some(out.content@) == form@.file_content
                &&& out.artifact@.size == out.content.len()
                &&& out.directory@ == directory_path(
                    settings.uploads_path@,
                    project_id@,
                    data.branch,
                )
            },
            Err(AppError::InvalidIosMetadata) => {
                &&& form@.lacks_ios_metadata()
                &&& final(store)@ == old(store)@
            },
            Err(AppError::FileMissing) => {
                &&& !form@.lacks_ios_metadata()
                &&& form@.lacks_file()
                &&& final(store)@ == old(store)@
            },
            Err(AppError::Never) => {
                &&& !form@.lacks_ios_metadata()
                &&& !form@.lacks_file()
                &&& form@.fields.lacks_file_data()
                &&& final(store)@ == old(store)@
            },
            Err(AppError::SystemTimeError(_)) => {
                &&& !form@.lacks_ios_metadata()
                &&& !form@.lacks_file()
                &&& !form@.fields.lacks_file_data()
                &&& final(store)@ == old(store)@
            },
            Err(AppError::SurrealInternalError(_)) => {
                &&& !form@.lacks_ios_metadata()
                &&& !form@.lacks_file()
                &&& !form@.fields.lacks_file_data()
                &&& final(store)@ == old(store)@
                &&& exists|id: Seq<char>|
                    id.len() == 24 && all_lower_hex(id) && #[trigger] holds_id(old(store)@, id)
            },
            Err(AppError::QrCodeError(_)) => {
                let data = validated(form@, project_id@, settings.uploads_path@);
                let kept = final(store)@.last();
                &&& !form@.lacks_ios_metadata()
                &&& !form@.lacks_file()
                &&& !form@.fields.lacks_file_data()
                &&& kept.id.len() == 24
                &&& all_lower_hex(kept.id)
                &&& !holds_id(old(store)@, kept.id)
                &&& final(store)@.len() == old(store)@.len() + 1
                &&& final(store)@.drop_last() == old(store)@
                &&& kept == ArtifactView::created(data, kept.id, kept.created_at)
                &&& qr_svg_of(settings.public_url@, kept) is None
            },
            Err(_) => false,
        },
{
    let ghost before = store@;
    let (data, content) = match validate_upload(
        form,
        project_id.clone(),
        settings.uploads_path.as_str(),
    ) {
        Ok(pair) => pair,
        Err(e) => {
            return Err(e);
        },
    };
    let artifact = match Artifact::new(data) {
        Ok(artifact) => artifact,
        Err(e) => {
            return Err(AppError::SystemTimeError(e));
        },
    };
    let directory = create_directory_path(
        settings.uploads_path.as_str(),
        &project_id,
        artifact.get_branch(),
    );
    let ghost made = artifact@;
    match publish_artifact(store, artifact, settings.public_url.as_str()) {
        Ok(stored) => {
            Ok(StoredUpload { artifact: stored, directory, content })
        },
        Err(e) => {
            proof {
                if e is QrCodeError {
                    assert(store@.drop_last() =~= before);
                    assert(store@.last() == made);
                }
                if e is SurrealInternalError {
                    assert(holds_id(before, made.id));
                }
            }
            Err(e)
        },
    }
}

} // verus!
