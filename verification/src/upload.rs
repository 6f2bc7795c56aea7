//! Receiving an upload: the parts of a multipart body are taken one by one
//! into a form, and the finished form is validated before anything is
//! stored.

use vstd::prelude::*;
use crate::error::AppError;
use crate::helpers::text::{opt_text, text_eq};
use crate::schemas::artifact::{
    ArtifactExtensions,
    CreateArtifact,
    CreateArtifactView,
    IosMetadata,
    IosMetadataView,
    classify,
};

verus! {

/// A text field of the upload form.
#[derive(Debug, Clone, Copy, PartialEq, Eq, Structural)]
pub enum TextField {
    Branch,
    Identifier,
    BundleIdentifier,
    BundleVersion,
}

/// What the receiver is to do with a part.
#[derive(Debug, Clone, Copy, PartialEq, Eq, Structural)]
pub enum FieldAction {
    /// Read the part as text and hand it in as the named field.
    ReadText(TextField),
    /// Hand in the part's file name and content type, then its bytes.
    ReadFile,
    /// Pass over the part.
    Skip,
}

/// The name of the part that carries the branch.
pub const BRANCH_FIELD: &'static str = "branch";

/// The name of the part that carries the identifier.
pub const IDENTIFIER_FIELD: &'static str = "identifier";

/// The name of the part that carries the bundle identifier.
pub const BUNDLE_IDENTIFIER_FIELD: &'static str = "bundle_identifier";

/// The name of the part that carries the bundle version.
pub const BUNDLE_VERSION_FIELD: &'static str = "bundle_version";

/// The name of the part that carries the binary.
pub const FILE_FIELD: &'static str = "file";

/// The action for a part of the given name: the four text fields and the
/// file are recognised, a part of any other name or of none is passed over.
pub open spec fn action_for(name: Option<Seq<char>>) -> FieldAction {
    match name {
        Some(n) => {
            if n == BRANCH_FIELD@ {
                FieldAction::ReadText(TextField::Branch)
            } else if n == IDENTIFIER_FIELD@ {
                FieldAction::ReadText(TextField::Identifier)
            } else if n == BUNDLE_IDENTIFIER_FIELD@ {
                FieldAction::ReadText(TextField::BundleIdentifier)
            } else if n == BUNDLE_VERSION_FIELD@ {
                FieldAction::ReadText(TextField::BundleVersion)
            } else if n == FILE_FIELD@ {
                FieldAction::ReadFile
            } else {
                FieldAction::Skip
            }
        },
        None => FieldAction::Skip,
    }
}

/// The view of an optional string slice.
pub open spec fn opt_str(o: Option<&str>) -> Option<Seq<char>> {
    match o {
        Some(s) => Some(s@),
        None => None,
    }
}

/// The view of an optional byte buffer.
pub open spec fn opt_bytes(o: Option<Vec<u8>>) -> Option<Seq<u8>> {
    match o {
        Some(b) => Some(b@),
        None => None,
    }
}

/// The parts of an upload read so far.
#[derive(Debug)]
pub struct UploadForm {
    branch: Option<String>,
    identifier: Option<String>,
    original_filename: Option<String>,
    mime_type: Option<String>,
    extension: Option<ArtifactExtensions>,
    bundle_identifier: String,
    bundle_version: String,
    file_content: Option<Vec<u8>>,
}

/// What an `UploadForm` holds, as plain values.
pub struct UploadFormView {
    pub fields: CreateArtifactView,
    pub ios_metadata: IosMetadataView,
    pub file_content: Option<Seq<u8>>,
}

impl UploadFormView {
    /// The form before any part was read.
    pub open spec fn empty() -> UploadFormView {
        UploadFormView {
            fields: CreateArtifactView::empty(),
            ios_metadata: IosMetadataView {
                bundle_identifier: Seq::empty(),
                bundle_version: Seq::empty(),
            },
            file_content: None,
        }
    }

    /// The form after a text field was read; a later value of a field
    /// replaces an earlier one.
    pub open spec fn with_text(self, field: TextField, value: Seq<char>) -> UploadFormView {
        match field {
            TextField::Branch => UploadFormView {
                fields: CreateArtifactView { branch: Some(value), ..self.fields },
                ..self
            },
            TextField::Identifier => UploadFormView {
                fields: CreateArtifactView { identifier: Some(value), ..self.fields },
                ..self
            },
            TextField::BundleIdentifier => UploadFormView {
                ios_metadata: IosMetadataView { bundle_identifier: value, ..self.ios_metadata },
                ..self
            },
            TextField::BundleVersion => UploadFormView {
                ios_metadata: IosMetadataView { bundle_version: value, ..self.ios_metadata },
                ..self
            },
        }
    }

    /// The form after the file part's name and content type were read: the
    /// name, the kind that the name stands for, and the content type.
    pub open spec fn with_file_head(self, file_name: Seq<char>, content_type: Seq<char>)
        -> UploadFormView {
        UploadFormView {
            fields: CreateArtifactView {
                original_filename: Some(file_name),
                extension: Some(classify(file_name)),
                mime_type: Some(content_type),
                ..self.fields
            },
            ..self
        }
    }

    /// The form after the file part's bytes were read: the bytes and their
    /// number.
    pub open spec fn with_file_body(self, bytes: Seq<u8>) -> UploadFormView {
        UploadFormView {
            fields: CreateArtifactView { size: Some(bytes.len() as usize), ..self.fields },
            file_content: Some(bytes),
            ..self
        }
    }

    /// The file is an iOS package and the bundle identifier or the bundle
    /// version is absent or empty.
    pub open spec fn lacks_ios_metadata(self) -> bool {
        self.fields.extension == Some(ArtifactExtensions::Ipa) && (
        self.ios_metadata.bundle_identifier.len() == 0 || self.ios_metadata.bundle_version.len()
            == 0)
    }

    /// No file part was read to its end.
    pub open spec fn lacks_file(self) -> bool {
        self.file_content is None
    }

    /// The fields of the validated upload: the metadata are attached for an
    /// iOS package and left out for any other kind.
    pub open spec fn validated_fields(self) -> CreateArtifactView {
        CreateArtifactView {
            metadata: if self.fields.extension == Some(ArtifactExtensions::Ipa) {
                Some(self.ios_metadata)
            } else {
                None
            },
            ..self.fields
        }
    }
}

impl View for UploadForm {
    type V = UploadFormView;

    closed spec fn view(&self) -> UploadFormView {
        UploadFormView {
            fields: CreateArtifactView {
                branch: opt_text(self.branch),
                identifier: opt_text(self.identifier),
                mime_type: opt_text(self.mime_type),
                original_filename: opt_text(self.original_filename),
                extension: self.extension,
                size: match self.file_content {
                    Some(bytes) => Some(bytes@.len() as usize),
                    None => None,
                },
                metadata: None,
            },
            ios_metadata: IosMetadataView {
                bundle_identifier: self.bundle_identifier@,
                bundle_version: self.bundle_version@,
            },
            file_content: opt_bytes(self.file_content),
        }
    }
}

/// An upload that passed validation: its fields and the bytes of its file.
#[derive(Debug)]
pub struct Upload {
    pub data: CreateArtifact,
    pub content: Vec<u8>,
}

impl UploadForm {
    /// The form before any part was read.
    pub fn new() -> (r: UploadForm)
        ensures
            r@ == UploadFormView::empty(),
    {
        let r = UploadForm {
            branch: None,
            identifier: None,
            original_filename: None,
            mime_type: None,
            extension: None,
            bundle_identifier: String::new(),
            bundle_version: String::new(),
            file_content: None,
        };
        assert(r@.ios_metadata.bundle_identifier =~= Seq::empty());
        assert(r@.ios_metadata.bundle_version =~= Seq::empty());
        r
    }

    /// Tells what to do with a part, by the part's name.
    pub fn action(name: Option<&str>) -> (r: FieldAction)
        ensures
            r == action_for(opt_str(name)),
    {
        match name {
            Some(n) => {
                if text_eq(n, BRANCH_FIELD) {
                    FieldAction::ReadText(TextField::Branch)
                } else if text_eq(n, IDENTIFIER_FIELD) {
                    FieldAction::ReadText(TextField::Identifier)
                } else if text_eq(n, BUNDLE_IDENTIFIER_FIELD) {
                    FieldAction::ReadText(TextField::BundleIdentifier)
                } else if text_eq(n, BUNDLE_VERSION_FIELD) {
                    FieldAction::ReadText(TextField::BundleVersion)
                } else if text_eq(n, FILE_FIELD) {
                    FieldAction::ReadFile
                } else {
                    FieldAction::Skip
                }
            },
            None => FieldAction::Skip,
        }
    }

    /// Takes the text of one of the four text fields.
    pub fn accept_text(&mut self, field: TextField, value: String)
        ensures
            final(self)@ == old(self)@.with_text(field, value@),
    {
        match field {
            TextField::Branch => {
                self.branch = Some(value);
            },
            TextField::Identifier => {
                self.identifier = Some(value);
            },
            TextField::BundleIdentifier => {
                self.bundle_identifier = value;
            },
            TextField::BundleVersion => {
                self.bundle_version = value;
            },
        }
    }

    /// Takes the file part's name and content type, and classifies the
    /// binary by the name.
    ///
    /// A part without a file name or without a content type is refused with
    /// `Never`, and the form stays as it was.
    pub fn accept_file_head(&mut self, file_name: Option<String>, content_type: Option<String>)
        -> (r: Result<(), AppError>)
        ensures
            match r {
                Ok(_) => {
                    &&& file_name is Some
                    &&& content_type is Some
                    &&& final(self)@ == old(self)@.with_file_head(file_name->0@, content_type->0@)
                },
                Err(AppError::Never) => {
                    &&& file_name is None || content_type is None
                    &&& final(self)@ == old(self)@
                },
                Err(_) => false,
            },
    {
        match (file_name, content_type) {
            (Some(name), Some(mime_type)) => {
                let extension = ArtifactExtensions::from_filename(name.as_str());
                self.extension = Some(extension);
                self.original_filename = Some(name);
                self.mime_type = Some(mime_type);
                Ok(())
            },
            _ => Err(AppError::Never),
        }
    }

    /// Takes the bytes of the file part; their number is the size.
    pub fn accept_file_body(&mut self, bytes: Vec<u8>)
        ensures
            final(self)@ == old(self)@.with_file_body(bytes@),
    {
        self.file_content = Some(bytes);
    }

    /// Validates the form once every part was read.
    ///
    /// An iOS package whose bundle identifier or bundle version is absent or
    /// empty is refused with `InvalidIosMetadata`; next, a form without a
    /// file is refused with `FileMissing`. Every other form is accepted, and
    /// the size of the accepted upload is the number of its bytes.
    pub fn finish(self) -> (r: Result<Upload, AppError>)
        ensures
            match r {
                Ok(upload) => {
                    &&& !self@.lacks_ios_metadata()
                    &&& !self@.lacks_file()
                    &&& upload.data@ == self@.validated_fields()
                    &&& Some(upload.content@) == self@.file_content
                    &&& upload.data@.size == Some(upload.content.len())
                    &&& !upload.data@.lacks_ios_metadata()
                },
                Err(AppError::InvalidIosMetadata) => self@.lacks_ios_metadata(),
                Err(AppError::FileMissing) => !self@.lacks_ios_metadata() && self@.lacks_file(),
                Err(_) => false,
            },
    {
        let is_ios = match self.extension {
            Some(ArtifactExtensions::Ipa) => true,
            _ => false,
        };
        let metadata = if is_ios {
            if self.bundle_identifier.as_str().is_empty()
                || self.bundle_version.as_str().is_empty() {
                return Err(AppError::InvalidIosMetadata);
            }
            Some(
                IosMetadata {
                    bundle_identifier: self.bundle_identifier,
                    bundle_version: self.bundle_version,
                },
            )
        } else {
            None
        };
        match self.file_content {
            Some(content) => {
                let data = CreateArtifact {
                    branch: self.branch,
                    identifier: self.identifier,
                    mime_type: self.mime_type,
                    original_filename: self.original_filename,
                    extension: self.extension,
                    size: Some(content.len()),
                    metadata,
                };
                Ok(Upload { data, content })
            },
            None => Err(AppError::FileMissing),
        }
    }
}

} // verus!
