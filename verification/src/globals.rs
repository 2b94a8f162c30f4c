use crate::errors::GitError;
use crate::store::AppDatabase;
use crate::text::{chars_to_string, ends_with_lit, has_prefix, has_suffix, starts_with_lit, str_to_chars, subvec};
use crate::workspace::GlobalVariable;
use vstd::prelude::*;

verus! {

// User-wide variables, stored in the same settings store: one pair of keys
// per variable, its identifier under "gvar:<key>:id" and its value under
// "gvar:<key>:value".

/// Relies on uuid::Uuid::new_v4: a fresh random identifier, of which nothing
/// more can be promised.
#[verifier::external_body]
fn new_uuid() -> (r: String) {
    uuid::Uuid::new_v4().to_string()
}

/// The settings-store key of one field of one variable.
fn gvar_key(key: &str, field: &str) -> (r: String)
    ensures
        r@ == "gvar:"@ + key@ + ":"@ + field@,
{
    let mut r = String::from_str("gvar:");
    r.append(key);
    r.append(":");
    r.append(field);
    r
}

/// Every stored variable, ordered by key.
pub fn list_global_variables(db: &AppDatabase) -> (r: Result<Vec<GlobalVariable>, String>) {
    let pairs = match db.all_settings() {
        Ok(p) => p,
        Err(_) => {
            return Err(String::from_str("Failed to query global variables"));
        },
    };
    let prefix_len = "gvar:".unicode_len();
    let suffix_len = ":value".unicode_len();
    proof {
        reveal_strlit("gvar:");
        reveal_strlit(":value");
        assert(prefix_len == 5 && suffix_len == 6);
    }
    let mut out: Vec<GlobalVariable> = Vec::new();
    let mut i: usize = 0;
    while i < pairs.len()
        invariant
            i <= pairs@.len(),
            prefix_len == 5,
            suffix_len == 6,
        decreases pairs@.len() - i,
    {
        let key_chars = str_to_chars(pairs[i].0.as_str());
        if starts_with_lit(&key_chars, "gvar:") && ends_with_lit(&key_chars, ":value")
            && key_chars.len() >= prefix_len + suffix_len {
            let name = subvec(&key_chars, prefix_len, key_chars.len() - suffix_len);
            let name_s = chars_to_string(&name);
            let id = match db.get_optional_setting(gvar_key(name_s.as_str(), "id").as_str()) {
                Some(v) => v,
                None => String::new(),
            };
            let value_chars = str_to_chars(pairs[i].1.as_str());
            out.push(GlobalVariable { id, key: name_s, value: chars_to_string(&value_chars) });
        }
        i = i + 1;
    }
    Ok(out)
}

/// Replaces the whole variable set: what was stored goes, and each given
/// variable is stored in its place, keeping its identifier or getting a fresh
/// one when it has none. The replacement runs inside one transaction, so a
/// storage fault midway leaves the stored set as it was.
pub fn save_global_variables(db: &AppDatabase, variables: Vec<GlobalVariable>) -> (r: Result<
    (),
    String,
>) {
    let existing = list_global_variables(db)?;
    if db.begin_changes().is_err() {
        return Err(String::from_str("Failed to begin transaction"));
    }
    let mut i: usize = 0;
    while i < existing.len()
        invariant
            i <= existing@.len(),
        decreases existing@.len() - i,
    {
        let key = existing[i].key.as_str();
        let del_id = db.delete_setting(gvar_key(key, "id").as_str());
        let del_value = db.delete_setting(gvar_key(key, "value").as_str());
        if del_id.is_err() || del_value.is_err() {
            let _ = db.rollback_changes();
            return Err(String::from_str("Failed to clear variables"));
        }
        i = i + 1;
    }
    let mut j: usize = 0;
    while j < variables.len()
        invariant
            j <= variables@.len(),
        decreases variables@.len() - j,
    {
        let var = &variables[j];
        let id = if var.id.as_str().unicode_len() == 0 {
            new_uuid()
        } else {
            var.id.clone()
        };
        let key = var.key.as_str();
        let set_id = db.save_app_setting(gvar_key(key, "id").as_str(), &id);
        let set_value = db.save_app_setting(gvar_key(key, "value").as_str(), &var.value);
        if set_id.is_err() || set_value.is_err() {
            let _ = db.rollback_changes();
            return Err(String::from_str("Failed to insert variable"));
        }
        j = j + 1;
    }
    if db.commit_changes().is_err() {
        let _ = db.rollback_changes();
        return Err(String::from_str("Failed to commit"));
    }
    Ok(())
}

/// The stored variable under `key`.
pub fn get_global_variable(db: &AppDatabase, key: &str) -> (r: Result<GlobalVariable, String>) {
    let value = match db.get_optional_setting(gvar_key(key, "value").as_str()) {
        Some(v) => v,
        None => {
            return Err(String::from_str("Variable not found"));
        },
    };
    let id = match db.get_optional_setting(gvar_key(key, "id").as_str()) {
        Some(v) => v,
        None => String::new(),
    };
    let key_chars = str_to_chars(key);
    Ok(GlobalVariable { id, key: chars_to_string(&key_chars), value })
}

/// Removes the stored variable under `key`, whether or not one was there.
pub fn delete_global_variable(db: &AppDatabase, key: &str) -> (r: Result<(), String>) {
    let del_id = db.delete_setting(gvar_key(key, "id").as_str());
    let del_value = db.delete_setting(gvar_key(key, "value").as_str());
    if del_id.is_err() || del_value.is_err() {
        Err(String::from_str("Failed to delete"))
    } else {
        Ok(())
    }
}

} // verus!
