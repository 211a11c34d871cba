//! Upload and retrieval of a shared file.
//!
//! The transport reads the request and the store is asked for the rows;
//! these functions decide from plain values what is stored or sent back, or
//! with which status and message the request is refused. A retrieval is
//! decided in two steps, so that the file row and the private key are read
//! only for a request that has passed the gates.

use crate::cipher::padded_len;
use crate::dtos::{FileUploadDto, Response};
use crate::envelope::{access_check, check_access, AccessError, Envelope};
use crate::error::{ErrorMessage, HttpError, BAD_REQUEST, INTERNAL_SERVER_ERROR};
use crate::keywrap::{decode_public_key, modulus_len, private_key_parses, stored_key_text};
use crate::models::{File, ShareLink, User};
use crate::password;
use crate::time::{parse_rfc3339, rfc3339, Timestamp};
use crate::utils::decrypt::{decrypt_file, file_decryption};
use crate::utils::encrypt::{encrypt_file, encryption_refusal};
use vstd::prelude::*;
use vstd::string::StringExecFns;

verus! {

/// What an accepted upload hands to the store: the envelope's parts and the
/// share link's, the password as a hash.
#[derive(Debug)]
pub struct Upload {
    pub user_id: u128,
    pub file_name: String,
    pub file_size: i64,
    pub recipient_user_id: u128,
    pub password: String,
    pub expiration_date: Timestamp,
    pub encrypted_aes_key: Vec<u8>,
    pub encrypted_file: Vec<u8>,
    pub iv: Vec<u8>,
}

/// What an accepted retrieval hands to the transport: the file's name and
/// its plaintext.
#[derive(Debug)]
pub struct Download {
    pub file_name: String,
    pub content: Vec<u8>,
}

/// The refusal of an upload, if any, as status and message. In this order:
/// the recipient must exist and have a public key, which must unwrap to
/// text; the file must be short enough to pad and the key be accepted and
/// have room; the password must be short enough to hash; and the expiration
/// date must read as RFC 3339.
pub open spec fn upload_refusal(
    recipient: Option<User>,
    file_len: nat,
    form_data: FileUploadDto,
) -> Option<(u16, Seq<char>)> {
    match recipient {
        None => Some((BAD_REQUEST, "Recipient user not found"@)),
        Some(user) => match user.public_key {
            None => Some((BAD_REQUEST, "Recipient user has no public key"@)),
            Some(stored) => match stored_key_text(stored@) {
                None => Some((INTERNAL_SERVER_ERROR, "Invalid recipient public key"@)),
                Some(pem) => match encryption_refusal(file_len, pem) {
                    Some(refusal) => Some(refusal),
                    None => if !password::hashable(form_data.password@) {
                        Some((INTERNAL_SERVER_ERROR, ErrorMessage::HashingError.message()))
                    } else if rfc3339(form_data.expiration_date@) is None {
                        Some((BAD_REQUEST, "Invalid expiration date"@))
                    } else {
                        None
                    },
                },
            },
        },
    }
}

/// Whether `upload` is what is stored for a file `file_data` named
/// `file_name` that `user_id` sends to `recipient` under the conditions of
/// `form_data`: the names and sizes as given, a hash that the password
/// matches, the date as read, and an envelope sealed from the file whose
/// wrapped key is as long as the recipient's modulus.
pub open spec fn stores(
    upload: Upload,
    user_id: u128,
    file_name: String,
    file_data: Seq<u8>,
    form_data: FileUploadDto,
    recipient: User,
) -> bool {
    &&& upload.user_id == user_id
    &&& upload.file_name == file_name
    &&& upload.file_size == file_data.len()
    &&& upload.recipient_user_id == recipient.id
    &&& password::accepts(form_data.password@, upload.password@)
    &&& rfc3339(form_data.expiration_date@) == Some(upload.expiration_date)
    &&& recipient.public_key is Some
    &&& stored_key_text(recipient.public_key->0@) is Some
    &&& upload.encrypted_aes_key@.len() == modulus_len(
        stored_key_text(recipient.public_key->0@)->0,
    )
    &&& upload.encrypted_file@.len() == padded_len(file_data.len())
    &&& upload.iv@.len() == 16
    &&& (Envelope {
        wrapped_key: upload.encrypted_aes_key,
        ciphertext: upload.encrypted_file,
        iv: upload.iv,
    }).sealed_from(file_data)
}

/// Finishes an upload from the parts of the sealed envelope and the
/// outcome of hashing the password.
///
/// Without a hash the upload fails as a server error. With one, the
/// expiration date is read: a date that is no RFC 3339 date is the client's
/// fault, and otherwise what the store is handed carries exactly the values
/// given, the hash and the instant read.
pub fn upload_with(
    user_id: u128,
    file_name: String,
    file_len: usize,
    form_data: &FileUploadDto,
    recipient_user_id: u128,
    parts: (Vec<u8>, Vec<u8>, Vec<u8>),
    hashed: Result<String, ErrorMessage>,
) -> (result: Result<Upload, HttpError>)
    requires
        file_len <= i64::MAX,
    ensures
        match (hashed, rfc3339(form_data.expiration_date@)) {
            (Err(e), _) => result is Err && result->Err_0.is(INTERNAL_SERVER_ERROR, e.message()),
            (Ok(_), None) => result is Err && result->Err_0.is(
                BAD_REQUEST,
                "Invalid expiration date"@,
            ),
            (Ok(hash), Some(instant)) => {
                &&& result is Ok
                &&& result->Ok_0.password == hash
                &&& result->Ok_0.expiration_date == instant
                &&& result->Ok_0.user_id == user_id
                &&& result->Ok_0.file_name == file_name
                &&& result->Ok_0.file_size == file_len
                &&& result->Ok_0.recipient_user_id == recipient_user_id
                &&& result->Ok_0.encrypted_aes_key == parts.0
                &&& result->Ok_0.encrypted_file == parts.1
                &&& result->Ok_0.iv == parts.2
            },
        },
{
    let hash_password = match hashed {
        Ok(hash) => hash,
        Err(e) => {
            return Err(HttpError::server_error(e.to_string()));
        },
    };
    let expiration_date = match parse_rfc3339(form_data.expiration_date.as_str()) {
        Some(instant) => instant,
        None => {
            return Err(HttpError::bad_request(String::from_str("Invalid expiration date")));
        },
    };
    let (encrypted_aes_key, encrypted_file, iv) = parts;
    Ok(
        Upload {
            user_id,
            file_name,
            file_size: file_len as i64,
            recipient_user_id,
            password: hash_password,
            expiration_date,
            encrypted_aes_key,
            encrypted_file,
            iv,
        },
    )
}

/// Prepares an upload for the store.
///
/// The recipient must exist and have a public key, which must unwrap and be
/// accepted; the file is sealed for that key, the password hashed, and the
/// expiration date read as RFC 3339. The upload is refused exactly as
/// `upload_refusal` tells, and accepted otherwise. A missing recipient, a
/// missing key and an unreadable date are the client's fault; everything
/// else is a server error.
pub fn upload_file(
    user_id: u128,
    file_name: String,
    file_data: Vec<u8>,
    form_data: &FileUploadDto,
    recipient: Option<User>,
) -> (result: Result<Upload, HttpError>)
    ensures
        match upload_refusal(recipient, file_data@.len(), *form_data) {
            Some((status, message)) => result is Err && result->Err_0.is(status, message),
            None => result matches Ok(upload) && stores(
                upload,
                user_id,
                file_name,
                file_data@,
                *form_data,
                recipient->0,
            ),
        },
{
    let recipient_user = match recipient {
        Some(user) => user,
        None => {
            return Err(HttpError::bad_request(String::from_str("Recipient user not found")));
        },
    };
    let pem = match &recipient_user.public_key {
        Some(stored) => match decode_public_key(stored.as_str()) {
            Ok(pem) => pem,
            Err(_) => {
                return Err(
                    HttpError::server_error(String::from_str("Invalid recipient public key")),
                );
            },
        },
        None => {
            return Err(
                HttpError::bad_request(String::from_str("Recipient user has no public key")),
            );
        },
    };
    let file_len = file_data.len();
    let parts = match encrypt_file(file_data, pem.as_str()) {
        Ok(parts) => parts,
        Err(e) => {
            return Err(e);
        },
    };
    let hashed = password::hash(form_data.password.as_str());
    upload_with(user_id, file_name, file_len, form_data, recipient_user.id, parts, hashed)
}

/// The body of the response to an accepted upload.
pub fn upload_accepted() -> (body: Response)
    ensures
        body.status@ == "successful"@,
        body.message@ == "File uploaded and encrypted successfully"@,
{
    Response {
        status: "successful",
        message: String::from_str("File uploaded and encrypted successfully"),
    }
}

/// Whether a body of `len` bytes is a positive number of whole blocks.
pub open spec fn whole_blocks(len: nat) -> bool {
    len > 0 && len % 16 == 0
}

/// The envelope that a file row holds.
pub open spec fn envelope_of(file: File) -> Envelope {
    Envelope { wrapped_key: file.encrypted_aes_key, ciphertext: file.encrypted_file, iv: file.iv }
}

/// What `authorize_retrieval` returns, as a value of the model: the
/// identifier of the file that the link points to, or the status and
/// message of the refusal.
pub open spec fn authorization(
    shared_link: Option<ShareLink>,
    user_id: u128,
    password: Seq<char>,
    now: Timestamp,
) -> Result<u128, (u16, Seq<char>)> {
    let unknown_link = (
        BAD_REQUEST,
        "The requested shared link either does not exist or has expired"@,
    );
    match shared_link {
        None => Err(unknown_link),
        Some(link) => if link.recipient_user_id != Some(user_id) {
            Err(unknown_link)
        } else {
            match link.expiration_date {
                None => Err(unknown_link),
                Some(expiration_date) => match access_check(
                    password,
                    link.password@,
                    expiration_date,
                    now,
                ) {
                    Err(AccessError::LinkExpired) => Err(unknown_link),
                    Err(_) => Err((BAD_REQUEST, "The provided password is incorrect."@)),
                    Ok(_) => match link.file_id {
                        None => Err((BAD_REQUEST, "File ID not found"@)),
                        Some(file_id) => Ok(file_id),
                    },
                },
            }
        },
    }
}

/// What `deliver_file` returns, as a value of the model: the file's name and
/// plaintext, or the status and message of the refusal.
pub open spec fn delivery(file: Option<File>, private_key: Option<String>) -> Result<
    (Seq<char>, Seq<u8>),
    (u16, Seq<char>),
> {
    match file {
        None => Err((BAD_REQUEST, "The requested file either does not exist or has expired"@)),
        Some(row) => match private_key {
            None => Err((INTERNAL_SERVER_ERROR, "Private key is not available"@)),
            Some(pem) => match file_decryption(envelope_of(row), pem@) {
                Ok(plaintext) => Ok((row.file_name@, plaintext)),
                Err(refusal) => Err(refusal),
            },
        },
    }
}

/// What `retrieve_file` returns, as a value of the model: the two steps in
/// turn.
pub open spec fn retrieval(
    shared_link: Option<ShareLink>,
    user_id: u128,
    password: Seq<char>,
    file: Option<File>,
    private_key: Option<String>,
    now: Timestamp,
) -> Result<(Seq<char>, Seq<u8>), (u16, Seq<char>)> {
    match authorization(shared_link, user_id, password, now) {
        Err(refusal) => Err(refusal),
        Ok(_) => delivery(file, private_key),
    }
}

/// Whether an exec result is the value `expected` of the model.
pub open spec fn is_authorization(
    result: Result<u128, HttpError>,
    expected: Result<u128, (u16, Seq<char>)>,
) -> bool {
    match expected {
        Ok(file_id) => result == Ok::<u128, HttpError>(file_id),
        Err((status, message)) => result is Err && result->Err_0.is(status, message),
    }
}

/// Whether an exec result is the value `expected` of the model.
pub open spec fn is_retrieval(
    result: Result<Download, HttpError>,
    expected: Result<(Seq<char>, Seq<u8>), (u16, Seq<char>)>,
) -> bool {
    match expected {
        Ok((file_name, content)) => result is Ok && result->Ok_0.file_name@ == file_name
            && result->Ok_0.content@ == content,
        Err((status, message)) => result is Err && result->Err_0.is(status, message),
    }
}

/// The first step of a retrieval: the gates.
///
/// `shared_link` is the row that the request names, `None` where there is
/// none. In this order: the link must exist, be made for `user_id` and not
/// have expired at `now`; the password must match; and the link must name a
/// file, whose identifier is returned. A link that is missing, made for
/// another or expired is refused in the same words. Neither the file nor
/// any key is looked at.
pub fn authorize_retrieval(
    shared_link: Option<ShareLink>,
    user_id: u128,
    password: &str,
    now: Timestamp,
) -> (result: Result<u128, HttpError>)
    ensures
        is_authorization(result, authorization(shared_link, user_id, password@, now)),
{
    let link = match shared_link {
        Some(link) => link,
        None => {
            return Err(unknown_link());
        },
    };
    match link.recipient_user_id {
        Some(recipient) => {
            if recipient != user_id {
                return Err(unknown_link());
            }
        },
        None => {
            return Err(unknown_link());
        },
    }
    let expiration_date = match link.expiration_date {
        Some(instant) => instant,
        None => {
            return Err(unknown_link());
        },
    };
    match check_access(password, link.password.as_str(), expiration_date, now) {
        Ok(()) => {},
        Err(AccessError::LinkExpired) => {
            return Err(unknown_link());
        },
        Err(_) => {
            return Err(
                HttpError::bad_request(String::from_str("The provided password is incorrect.")),
            );
        },
    }
    match link.file_id {
        Some(file_id) => Ok(file_id),
        None => Err(HttpError::bad_request(String::from_str("File ID not found"))),
    }
}

/// The second step of a retrieval, for a request that has passed the gates:
/// the decryption.
///
/// `file` is the row that the link points to and `private_key` the
/// requester's PKCS#1 PEM private key, each `None` where there is none. The
/// file must exist, the key be there, and the envelope decrypt under it. A
/// body that is empty or no whole number of blocks is always refused, and a
/// plaintext that comes back is between one and sixteen bytes shorter than
/// the body.
pub fn deliver_file(file: Option<File>, private_key: Option<String>) -> (result: Result<
    Download,
    HttpError,
>)
    ensures
        is_retrieval(result, delivery(file, private_key)),
        file is Some && !whole_blocks(file->0.encrypted_file@.len()) ==> result is Err,
        file is Some && !whole_blocks(file->0.encrypted_file@.len()) && private_key is Some
            && private_key_parses(private_key->0@) ==> result is Err && result->Err_0.is(
            INTERNAL_SERVER_ERROR,
            "Unable to retrieve file"@,
        ),
        result matches Ok(download) ==> file is Some && download.content@.len()
            < file->0.encrypted_file@.len() <= download.content@.len() + 16,
{
    let row = match file {
        Some(row) => row,
        None => {
            return Err(
                HttpError::bad_request(
                    String::from_str("The requested file either does not exist or has expired"),
                ),
            );
        },
    };
    let pem = match private_key {
        Some(pem) => pem,
        None => {
            return Err(HttpError::server_error(String::from_str("Private key is not available")));
        },
    };
    let file_name = row.file_name;
    match decrypt_file(row.encrypted_aes_key, row.encrypted_file, row.iv, pem.as_str()) {
        Ok(content) => Ok(Download { file_name, content }),
        Err(e) => Err(e),
    }
}

/// Answers a request to retrieve a shared file, from everything the two
/// steps need: `authorize_retrieval`, and behind it `deliver_file`.
pub fn retrieve_file(
    shared_link: Option<ShareLink>,
    user_id: u128,
    password: &str,
    file: Option<File>,
    private_key: Option<String>,
    now: Timestamp,
) -> (result: Result<Download, HttpError>)
    ensures
        is_retrieval(result, retrieval(shared_link, user_id, password@, file, private_key, now)),
        file is Some && !whole_blocks(file->0.encrypted_file@.len()) ==> result is Err,
        result matches Ok(download) ==> file is Some && download.content@.len()
            < file->0.encrypted_file@.len() <= download.content@.len() + 16,
{
    match authorize_retrieval(shared_link, user_id, password, now) {
        Err(e) => Err(e),
        Ok(_) => deliver_file(file, private_key),
    }
}

/// The refusal of a link that is missing, made for another, or expired.
fn unknown_link() -> (error: HttpError)
    ensures
        error.is(BAD_REQUEST, "The requested shared link either does not exist or has expired"@),
{
    HttpError::bad_request(
        String::from_str("The requested shared link either does not exist or has expired"),
    )
}

} // verus!
