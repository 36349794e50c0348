//! The checks a queue request of the ui passes before anything is queued for a device.

use vstd::prelude::*;

verus! {

/// The largest image a device can be sent, in bytes.
pub const MAX_FILE_SIZE: u32 = 5000000;

/// The kinds of image a device can be sent.
#[derive(Debug, Clone, Copy, PartialEq, Eq)]
pub enum ImageKind {
    /// A jpeg image.
    Jpeg,
    /// A png image.
    Png,
}

impl ImageKind {
    /// The extension of the file an uploaded image is stored in.
    pub fn extension(&self) -> (extension: String)
        ensures
            extension@ == match *self {
                ImageKind::Jpeg => "jpg"@,
                ImageKind::Png => "png"@,
            },
    {
        proof {
            reveal_strlit("jpg");
            reveal_strlit("png");
        }
        match self {
            ImageKind::Jpeg => String::from_str("jpg"),
            ImageKind::Png => String::from_str("png"),
        }
    }
}

/// Why a queue request was refused.
#[derive(Debug, Clone, Copy, PartialEq, Eq)]
pub enum QueueRefusal {
    /// No user could be found for the request.
    MissingUser,
    /// The request has no content type.
    MissingContentType,
    /// The user may not use the device an image was uploaded for.
    UploadNotFound,
    /// The size of an uploaded image is not known.
    MissingUploadSize,
    /// An uploaded image is larger than `MAX_FILE_SIZE`.
    ImageTooLarge,
    /// The payload of the request could not be read.
    BadRequest,
    /// The user may not use the device a payload was sent for.
    DeviceNotFound,
}

/// The http status a refusal is answered with.
pub open spec fn spec_refusal_status(refusal: QueueRefusal) -> u16 {
    match refusal {
        QueueRefusal::MissingUser => 404,
        QueueRefusal::UploadNotFound => 404,
        QueueRefusal::DeviceNotFound => 400,
        _ => 422,
    }
}

/// The reason a refusal is answered with.
pub open spec fn spec_refusal_reason(refusal: QueueRefusal) -> Seq<char> {
    match refusal {
        QueueRefusal::MissingUser => "missing-user"@,
        QueueRefusal::MissingContentType => "missing content-type"@,
        QueueRefusal::UploadNotFound => "not-found"@,
        QueueRefusal::MissingUploadSize => "missing image upload size"@,
        QueueRefusal::ImageTooLarge => "image too large"@,
        QueueRefusal::BadRequest => "bad-request"@,
        QueueRefusal::DeviceNotFound => "not-found"@,
    }
}

impl QueueRefusal {
    /// The http status the refusal is answered with.
    pub fn status(&self) -> (status: u16)
        ensures
            status == spec_refusal_status(*self),
    {
        match self {
            QueueRefusal::MissingUser => 404,
            QueueRefusal::UploadNotFound => 404,
            QueueRefusal::DeviceNotFound => 400,
            _ => 422,
        }
    }

    /// The reason the refusal is answered with.
    pub fn reason(&self) -> (reason: String)
        ensures
            reason@ == spec_refusal_reason(*self),
    {
        proof {
            reveal_strlit("missing-user");
            reveal_strlit("missing content-type");
            reveal_strlit("not-found");
            reveal_strlit("missing image upload size");
            reveal_strlit("image too large");
            reveal_strlit("bad-request");
        }
        match self {
            QueueRefusal::MissingUser => String::from_str("missing-user"),
            QueueRefusal::MissingContentType => String::from_str("missing content-type"),
            QueueRefusal::UploadNotFound => String::from_str("not-found"),
            QueueRefusal::MissingUploadSize => String::from_str("missing image upload size"),
            QueueRefusal::ImageTooLarge => String::from_str("image too large"),
            QueueRefusal::BadRequest => String::from_str("bad-request"),
            QueueRefusal::DeviceNotFound => String::from_str("not-found"),
        }
    }
}

/// The kind of image a content type names, if it names one.
pub open spec fn spec_upload_kind(essence: Seq<char>) -> Option<ImageKind> {
    if essence == "image/jpeg"@ {
        Some(ImageKind::Jpeg)
    } else if essence == "image/png"@ {
        Some(ImageKind::Png)
    } else {
        None
    }
}

/// How the body of a queue request is read: a request without a known user, or without a
/// content type, is refused; one whose content type names an image is an upload of that kind;
/// any other is a json payload (`None`).
pub fn queue_body(user_known: bool, content_type: Option<&str>) -> (body: Result<
    Option<ImageKind>,
    QueueRefusal,
>)
    ensures
        !user_known ==> body == Err::<Option<ImageKind>, QueueRefusal>(QueueRefusal::MissingUser),
        user_known ==> body == match content_type {
            None => Err(QueueRefusal::MissingContentType),
            Some(essence) => Ok(spec_upload_kind(essence@)),
        },
{
    if !user_known {
        return Err(QueueRefusal::MissingUser);
    }
    match content_type {
        None => Err(QueueRefusal::MissingContentType),
        Some(essence) => {
            let given = String::from_str(essence);
            let jpeg = String::from_str("image/jpeg");
            let png = String::from_str("image/png");
            proof {
                reveal_strlit("image/jpeg");
                reveal_strlit("image/png");
            }
            if given == jpeg {
                Ok(Some(ImageKind::Jpeg))
            } else if given == png {
                Ok(Some(ImageKind::Png))
            } else {
                Ok(None)
            }
        },
    }
}

/// The size of an upload as it is compared with `MAX_FILE_SIZE`: cut down to its low 32 bits.
pub open spec fn compared_size(size: usize) -> u32 {
    size as u32
}

/// Checks an image upload for a device: the user must have access to the device, the size of
/// the upload must be known, and, cut down to 32 bits, at most `MAX_FILE_SIZE`.
pub fn upload_verdict(has_access: bool, size: Option<usize>) -> (verdict: Result<(), QueueRefusal>)
    ensures
        verdict == if !has_access {
            Err(QueueRefusal::UploadNotFound)
        } else {
            match size {
                None => Err(QueueRefusal::MissingUploadSize),
                Some(n) => if compared_size(n) > MAX_FILE_SIZE {
                    Err(QueueRefusal::ImageTooLarge)
                } else {
                    Ok(())
                },
            }
        },
{
    if !has_access {
        return Err(QueueRefusal::UploadNotFound);
    }
    match size {
        None => Err(QueueRefusal::MissingUploadSize),
        Some(n) => {
            let low: u32 = #[verifier::truncate] (n as u32);
            if low > MAX_FILE_SIZE {
                Err(QueueRefusal::ImageTooLarge)
            } else {
                Ok(())
            }
        },
    }
}

/// Checks a json payload for a device: it must have been read, and the user must have access to
/// the device it names.
pub fn payload_verdict(parsed: bool, has_access: bool) -> (verdict: Result<(), QueueRefusal>)
    ensures
        verdict == if !parsed {
            Err(QueueRefusal::BadRequest)
        } else if !has_access {
            Err(QueueRefusal::DeviceNotFound)
        } else {
            Ok(())
        },
{
    if !parsed {
        Err(QueueRefusal::BadRequest)
    } else if !has_access {
        Err(QueueRefusal::DeviceNotFound)
    } else {
        Ok(())
    }
}

} // verus!
