//! Rows of the encrypted store and the rules around it: the SQLCipher key
//! statement and the check after marking a payload as synced.
//!
//! The SQL itself runs in the application, against SQLite/SQLCipher.

use vstd::prelude::*;

use crate::encoding::{hex_encode, hex_encode_bytes};
use crate::error::SentinelError;
use crate::text::{i64_to_decimal, signed_decimal};

verus! {

/// A single row of the `payloads` table.
#[derive(Debug)]
pub struct PayloadRow {
    pub id: i64,
    pub device_id: String,
    pub encrypted_blob: Vec<u8>,
    pub received_at: i64,
}

/// A single row of the `devices` table.
#[derive(Debug, Clone)]
pub struct DeviceRow {
    pub device_id: String,
    pub friendly_name: String,
    pub token_hash: String,
    pub created_at: i64,
    pub last_seen: i64,
}

/// The statement that unlocks the database: `PRAGMA key = "x'<hex>'";`
/// followed by a newline, with the key as lowercase hexadecimal.
pub open spec fn spec_key_pragma(key: Seq<u8>) -> Seq<char> {
    "PRAGMA key = \"x'"@ + hex_encode(key) + "'\";\n"@
}

/// Builds the SQLCipher key statement for the 32-byte master key.
pub fn sqlcipher_key_pragma(key: &[u8; 32]) -> (s: String)
    ensures
        s@ == spec_key_pragma(key@),
{
    let mut s = "PRAGMA key = \"x'".to_owned();
    s.append(hex_encode_bytes(key.as_slice()).as_str());
    s.append("'\";\n");
    s
}

/// The message for an update that matched no payload row.
pub open spec fn spec_no_row_message(id: i64) -> Seq<char> {
    "mark_synced: no row found with id "@ + signed_decimal(id as int)
}

/// Interprets the number of rows that marking payload `id` as synced
/// updated: none means the id is unknown.
pub fn check_marked(updated: usize, id: i64) -> (r: Result<(), SentinelError>)
    ensures
        r is Ok <==> updated != 0,
        r matches Err(e) ==> (e matches SentinelError::Other(m) && m@ == spec_no_row_message(id)),
{
    if updated == 0 {
        let mut m = "mark_synced: no row found with id ".to_owned();
        m.append(i64_to_decimal(id).as_str());
        Err(SentinelError::Other(m))
    } else {
        Ok(())
    }
}

} // verus!
