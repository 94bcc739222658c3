//! What may be uploaded: the kinds of file and their sizes.

use vstd::prelude::*;
use crate::utils::text::same_text;

verus! {

/// The largest picture that is accepted, in bytes: ten mebibytes.
pub const MAX_IMAGE_SIZE: usize = 10 * 1024 * 1024;

/// The largest document that is accepted, in bytes: fifty mebibytes.
pub const MAX_DOCUMENT_SIZE: usize = 50 * 1024 * 1024;

/// The content type is that of a JPEG, PNG, GIF or WebP picture.
pub open spec fn is_image_content_type(content_type: Seq<char>) -> bool {
    content_type == "image/jpeg"@ || content_type == "image/png"@ || content_type == "image/gif"@
        || content_type == "image/webp"@
}

/// The content type is that of a PDF or Word document or of a JPEG or PNG
/// picture.
pub open spec fn is_document_content_type(content_type: Seq<char>) -> bool {
    content_type == "application/pdf"@ || content_type == "application/msword"@ || content_type
        == "application/vnd.openxmlformats-officedocument.wordprocessingml.document"@
        || content_type == "image/jpeg"@ || content_type == "image/png"@
}

/// Whether a file of this content type is accepted as a picture.
pub fn validate_image_content_type(content_type: &str) -> (r: bool)
    ensures
        r == is_image_content_type(content_type@),
{
    same_text(content_type, "image/jpeg") || same_text(content_type, "image/png") || same_text(
        content_type,
        "image/gif",
    ) || same_text(content_type, "image/webp")
}

/// Whether a file of this content type is accepted as a document.
pub fn validate_document_content_type(content_type: &str) -> (r: bool)
    ensures
        r == is_document_content_type(content_type@),
{
    same_text(content_type, "application/pdf") || same_text(content_type, "application/msword")
        || same_text(
        content_type,
        "application/vnd.openxmlformats-officedocument.wordprocessingml.document",
    ) || same_text(content_type, "image/jpeg") || same_text(content_type, "image/png")
}

} // verus!
