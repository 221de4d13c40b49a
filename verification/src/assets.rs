//! Uploaded reference material.

use vstd::prelude::*;

verus! {

/// What is noted of a piece of uploaded material.
#[derive(Debug, PartialEq, Eq)]
pub struct AssetRecord {
    pub id: String,
    pub filename: String,
    pub mime_type: String,
    pub extension: String,
    pub size: u64,
    pub sha256: String,
    pub public_token: String,
    pub created_at: u64,
    pub expires_at: u64,
}

/// The model of an [`AssetRecord`].
pub struct AssetView {
    pub id: Seq<char>,
    pub filename: Seq<char>,
    pub mime_type: Seq<char>,
    pub extension: Seq<char>,
    pub size: u64,
    pub sha256: Seq<char>,
    pub public_token: Seq<char>,
    pub created_at: u64,
    pub expires_at: u64,
}

impl View for AssetRecord {
    type V = AssetView;

    open spec fn view(&self) -> AssetView {
        AssetView {
            id: self.id@,
            filename: self.filename@,
            mime_type: self.mime_type@,
            extension: self.extension@,
            size: self.size,
            sha256: self.sha256@,
            public_token: self.public_token@,
            created_at: self.created_at,
            expires_at: self.expires_at,
        }
    }
}

} // verus!
