//! Shapes of request and response bodies.

use crate::ids::{id_text, uuid_text};
use crate::models::{ReceiveFileDetails, SendFileDetails, User};
use crate::time::Timestamp;
use vstd::prelude::*;

verus! {

/// Body of a registration request.
#[derive(Debug, Clone, Default)]
pub struct RegisterUserDto {
    pub name: String,
    pub email: String,
    pub password: String,
    pub password_confirm: String,
}

/// Body of a login request.
#[derive(Debug, Clone, Default)]
pub struct LoginUserDto {
    pub email: String,
    pub password: String,
}

/// Paging parameters of a listing request.
#[derive(Debug, Clone, Default)]
pub struct RequestQueryDto {
    pub page: Option<usize>,
    pub limit: Option<usize>,
}

/// Body of a successful login.
#[derive(Debug)]
pub struct UserLoginResponseDto {
    pub status: String,
    pub token: String,
}

/// Body of a response that carries only a status word and a message.
#[derive(Debug)]
pub struct Response {
    pub status: &'static str,
    pub message: String,
}

/// Body of a request to change the user's name.
#[derive(Debug, Clone, Default)]
pub struct NamedUpdateDto {
    pub name: String,
}

/// The fields of an upload form besides the file itself.
#[derive(Debug, Clone, Default)]
pub struct FileUploadDto {
    pub recipient_email: String,
    pub password: String,
    pub expiration_date: String,
}

/// A user as shown to clients: without the password hash.
#[derive(Debug)]
pub struct FilterUserDto {
    pub id: String,
    pub name: String,
    pub email: String,
    pub public_key: Option<String>,
    pub created_at: Timestamp,
    pub updated_at: Timestamp,
}

#[derive(Debug)]
pub struct UserData {
    pub user: FilterUserDto,
}

#[derive(Debug)]
pub struct UserResponseDto {
    pub status: String,
    pub data: UserData,
}

/// A sent file as shown to its sender.
#[derive(Debug)]
pub struct UserSendFileDto {
    pub file_id: String,
    pub file_name: String,
    pub recipient_email: String,
    pub expiration_date: Timestamp,
    pub created_at: Timestamp,
}

#[derive(Debug)]
pub struct UserSendFileListResponseDto {
    pub status: String,
    pub files: Vec<UserSendFileDto>,
    pub results: i64,
}

/// A received file as shown to its recipient.
#[derive(Debug)]
pub struct UserReceiveFileDto {
    pub file_id: String,
    pub file_name: String,
    pub sender_email: String,
    pub expiration_date: Timestamp,
    pub created_at: Timestamp,
}

#[derive(Debug)]
pub struct UserReceiveFileListResponseDto {
    pub status: String,
    pub files: Vec<UserReceiveFileDto>,
    pub results: i64,
}

impl FilterUserDto {
    /// Whether this is `user` as shown to clients: the identifier as text,
    /// name, address, public key and both dates as stored.
    pub open spec fn shows(self, user: User) -> bool {
        &&& self.id@ == uuid_text(user.id)
        &&& self.name == user.name
        &&& self.email == user.email
        &&& self.public_key == user.public_key
        &&& Some(self.created_at) == user.created_at
        &&& Some(self.updated_at) == user.updated_at
    }

    pub fn filter_user(user: &User) -> (shown: Self)
        requires
            user.created_at is Some,
            user.updated_at is Some,
        ensures
            shown.shows(*user),
    {
        Self {
            id: id_text(user.id),
            name: user.name.clone(),
            email: user.email.clone(),
            public_key: user.public_key.clone(),
            created_at: user.created_at.unwrap(),
            updated_at: user.updated_at.unwrap(),
        }
    }
}

impl UserSendFileDto {
    /// Whether this is `details` as shown to the sender.
    pub open spec fn shows(self, details: SendFileDetails) -> bool {
        &&& self.file_id@ == uuid_text(details.file_id)
        &&& self.file_name == details.file_name
        &&& self.recipient_email == details.recipient_email
        &&& Some(self.expiration_date) == details.expiration_date
        &&& Some(self.created_at) == details.created_at
    }

    pub fn filter_send_user_file(file_data: &SendFileDetails) -> (shown: Self)
        requires
            file_data.expiration_date is Some,
            file_data.created_at is Some,
        ensures
            shown.shows(*file_data),
    {
        Self {
            file_id: id_text(file_data.file_id),
            file_name: file_data.file_name.clone(),
            recipient_email: file_data.recipient_email.clone(),
            expiration_date: file_data.expiration_date.unwrap(),
            created_at: file_data.created_at.unwrap(),
        }
    }

    pub fn filter_send_user_files(user: &[SendFileDetails]) -> (shown: Vec<UserSendFileDto>)
        requires
            forall|i: int|
                0 <= i < user@.len() ==> (#[trigger] user@[i]).expiration_date is Some
                    && user@[i].created_at is Some,
        ensures
            shown@.len() == user@.len(),
            forall|i: int| 0 <= i < user@.len() ==> (#[trigger] shown@[i]).shows(user@[i]),
    {
        let mut shown: Vec<UserSendFileDto> = Vec::new();
        let mut i: usize = 0;
        while i < user.len()
            invariant
                i <= user@.len(),
                shown@.len() == i,
                forall|j: int|
                    0 <= j < user@.len() ==> (#[trigger] user@[j]).expiration_date is Some
                        && user@[j].created_at is Some,
                forall|j: int| 0 <= j < i ==> (#[trigger] shown@[j]).shows(user@[j]),
            decreases user@.len() - i,
        {
            shown.push(UserSendFileDto::filter_send_user_file(&user[i]));
            i += 1;
        }
        shown
    }
}

impl UserReceiveFileDto {
    /// Whether this is `details` as shown to the recipient.
    pub open spec fn shows(self, details: ReceiveFileDetails) -> bool {
        &&& self.file_id@ == uuid_text(details.file_id)
        &&& self.file_name == details.file_name
        &&& self.sender_email == details.sender_email
        &&& Some(self.expiration_date) == details.expiration_date
        &&& Some(self.created_at) == details.created_at
    }

    pub fn filter_receive_user_file(file_data: &ReceiveFileDetails) -> (shown: Self)
        requires
            file_data.expiration_date is Some,
            file_data.created_at is Some,
        ensures
            shown.shows(*file_data),
    {
        Self {
            file_id: id_text(file_data.file_id),
            file_name: file_data.file_name.clone(),
            sender_email: file_data.sender_email.clone(),
            expiration_date: file_data.expiration_date.unwrap(),
            created_at: file_data.created_at.unwrap(),
        }
    }

    pub fn filter_receive_user_files(user: &[ReceiveFileDetails]) -> (shown: Vec<
        UserReceiveFileDto,
    >)
        requires
            forall|i: int|
                0 <= i < user@.len() ==> (#[trigger] user@[i]).expiration_date is Some
                    && user@[i].created_at is Some,
        ensures
            shown@.len() == user@.len(),
            forall|i: int| 0 <= i < user@.len() ==> (#[trigger] shown@[i]).shows(user@[i]),
    {
        let mut shown: Vec<UserReceiveFileDto> = Vec::new();
        let mut i: usize = 0;
        while i < user.len()
            invariant
                i <= user@.len(),
                shown@.len() == i,
                forall|j: int|
                    0 <= j < user@.len() ==> (#[trigger] user@[j]).expiration_date is Some
                        && user@[j].created_at is Some,
                forall|j: int| 0 <= j < i ==> (#[trigger] shown@[j]).shows(user@[j]),
            decreases user@.len() - i,
        {
            shown.push(UserReceiveFileDto::filter_receive_user_file(&user[i]));
            i += 1;
        }
        shown
    }

    pub fn new(
        file_id: String,
        file_name: String,
        sender_email: String,
        expiration_date: Timestamp,
        created_at: Timestamp,
    ) -> (dto: Self)
        ensures
            dto.file_id == file_id,
            dto.file_name == file_name,
            dto.sender_email == sender_email,
            dto.expiration_date == expiration_date,
            dto.created_at == created_at,
    {
        Self { file_id, file_name, sender_email, expiration_date, created_at }
    }
}

} // verus!
