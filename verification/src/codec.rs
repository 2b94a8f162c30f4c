use crate::gitmodels::GitConfig;
use crate::text::{
    chars_to_string, dec_rep, dec_val, enc_i64_spec, i64_to_string, lemma_dec_rep_val,
    parse_i64_chars, spec_parse_i64, str_to_chars, subvec,
};
use vstd::prelude::*;

verus! {

// The settings store holds strings, so every configuration field is stored in
// a tagged text form: an optional value is "N" when absent and "S" followed by
// the value's own encoding when present; a bool is "1" or "0"; an integer is
// its signed decimal representation. A field that does not decode falls back
// to the default configuration's value for it.

/// The stored form of an optional string.
pub open spec fn enc_opt_str_spec(v: Option<String>) -> Seq<char> {
    match v {
        None => "N"@,
        Some(s) => "S"@ + s@,
    }
}

/// The stored form of a bool.
pub open spec fn enc_bool_spec(b: bool) -> Seq<char> {
    if b {
        "1"@
    } else {
        "0"@
    }
}

/// The stored form of an optional timestamp.
pub open spec fn enc_opt_i64_spec(v: Option<i64>) -> Seq<char> {
    match v {
        None => "N"@,
        Some(n) => "S"@ + enc_i64_spec(n as int),
    }
}

/// What an optional-string field decodes to: absent or untagged text falls
/// back to `None`.
pub open spec fn opt_str_decodes_to(t: Option<String>, v: Option<String>) -> bool {
    match t {
        None => v is None,
        Some(s) => if s@.len() >= 1 && s@[0] == 'S' {
            v matches Some(x) && x@ == s@.subrange(1, s@.len() as int)
        } else {
            v is None
        },
    }
}

/// What a bool field decodes to: exactly "1" means true.
pub open spec fn bool_decodes_to(t: Option<String>, b: bool) -> bool {
    match t {
        None => b == false,
        Some(s) => b == (s@ == "1"@),
    }
}

/// What a timestamp field decodes to: unreadable text falls back to zero.
pub open spec fn i64_decodes_to(t: Option<String>, n: i64) -> bool {
    match t {
        None => n == 0,
        Some(s) => match spec_parse_i64(s@) {
            Some(x) => n as int == x,
            None => n == 0,
        },
    }
}

/// What an optional-timestamp field decodes to.
pub open spec fn opt_i64_decodes_to(t: Option<String>, v: Option<i64>) -> bool {
    match t {
        None => v is None,
        Some(s) => if s@.len() >= 1 && s@[0] == 'S' {
            match spec_parse_i64(s@.subrange(1, s@.len() as int)) {
                Some(x) => v matches Some(y) && y as int == x,
                None => v is None,
            }
        } else {
            v is None
        },
    }
}

/// What the identifier field decodes to: absence means the singleton default.
pub open spec fn id_decodes_to(t: Option<String>, s: String) -> bool {
    match t {
        None => s@ == "default"@,
        Some(x) => s@ == x@,
    }
}

/// Two optional strings with the same presence and characters.
pub open spec fn opt_str_eqv(a: Option<String>, b: Option<String>) -> bool {
    match a {
        None => b is None,
        Some(x) => b matches Some(y) && x@ == y@,
    }
}

pub fn encode_opt_string(v: &Option<String>) -> (r: String)
    ensures
        r@ == enc_opt_str_spec(*v),
{
    match v {
        None => String::from_str("N"),
        Some(s) => {
            let mut r = String::from_str("S");
            r.append(s.as_str());
            r
        },
    }
}

pub fn encode_bool(b: bool) -> (r: String)
    ensures
        r@ == enc_bool_spec(b),
{
    if b {
        String::from_str("1")
    } else {
        String::from_str("0")
    }
}

pub fn encode_opt_i64(v: &Option<i64>) -> (r: String)
    ensures
        r@ == enc_opt_i64_spec(*v),
{
    match v {
        None => String::from_str("N"),
        Some(n) => {
            let mut r = String::from_str("S");
            let num = i64_to_string(*n);
            r.append(num.as_str());
            r
        },
    }
}

pub fn decode_opt_string(t: &Option<String>) -> (r: Option<String>)
    ensures
        opt_str_decodes_to(*t, r),
{
    match t {
        None => None,
        Some(s) => {
            let chars = str_to_chars(s.as_str());
            if chars.len() >= 1 && chars[0] == 'S' {
                let rest = subvec(&chars, 1, chars.len());
                Some(chars_to_string(&rest))
            } else {
                None
            }
        },
    }
}

pub fn decode_bool(t: &Option<String>) -> (r: bool)
    ensures
        bool_decodes_to(*t, r),
{
    match t {
        None => false,
        Some(s) => {
            let chars = str_to_chars(s.as_str());
            proof {
                reveal_strlit("1");
            }
            if chars.len() == 1 && chars[0] == '1' {
                proof {
                    assert(s@ =~= "1"@);
                }
                true
            } else {
                proof {
                    if s@.len() == 1 {
                        assert(s@[0] != '1');
                    }
                }
                false
            }
        },
    }
}

pub fn decode_i64(t: &Option<String>) -> (r: i64)
    ensures
        i64_decodes_to(*t, r),
{
    match t {
        None => 0,
        Some(s) => {
            let chars = str_to_chars(s.as_str());
            match parse_i64_chars(&chars) {
                Some(x) => x,
                None => 0,
            }
        },
    }
}

pub fn decode_opt_i64(t: &Option<String>) -> (r: Option<i64>)
    ensures
        opt_i64_decodes_to(*t, r),
{
    match t {
        None => None,
        Some(s) => {
            let chars = str_to_chars(s.as_str());
            if chars.len() >= 1 && chars[0] == 'S' {
                let rest = subvec(&chars, 1, chars.len());
                match parse_i64_chars(&rest) {
                    Some(x) => Some(x),
                    None => None,
                }
            } else {
                None
            }
        },
    }
}

pub fn decode_id(t: &Option<String>) -> (r: String)
    ensures
        id_decodes_to(*t, r),
{
    match t {
        None => String::from_str("default"),
        Some(x) => {
            let chars = str_to_chars(x.as_str());
            chars_to_string(&chars)
        },
    }
}

/// The eighteen stored fields of a configuration, in storage order.
pub fn encode_config(c: &GitConfig) -> (r: Vec<String>)
    ensures
        r@.len() == 18,
        r@[0]@ == c.id@,
        r@[1]@ == enc_opt_str_spec(c.repository_path),
        r@[2]@ == enc_opt_str_spec(c.current_branch),
        r@[3]@ == enc_opt_str_spec(c.auth_method),
        r@[4]@ == enc_opt_str_spec(c.ssh_key_path),
        r@[5]@ == enc_opt_str_spec(c.ssh_passphrase_key),
        r@[6]@ == enc_opt_str_spec(c.github_token_key),
        r@[7]@ == enc_opt_str_spec(c.git_user_name),
        r@[8]@ == enc_opt_str_spec(c.git_user_email),
        r@[9]@ == enc_opt_str_spec(c.remote_name),
        r@[10]@ == enc_opt_str_spec(c.remote_url),
        r@[11]@ == enc_bool_spec(c.is_configured),
        r@[12]@ == enc_opt_i64_spec(c.last_fetch),
        r@[13]@ == enc_opt_str_spec(c.commit_message_style),
        r@[14]@ == enc_opt_str_spec(c.commit_message_provider),
        r@[15]@ == enc_opt_str_spec(c.commit_message_language),
        r@[16]@ == enc_i64_spec(c.created_at as int),
        r@[17]@ == enc_i64_spec(c.updated_at as int),
{
    let mut r: Vec<String> = Vec::new();
    let id_chars = str_to_chars(c.id.as_str());
    r.push(chars_to_string(&id_chars));
    r.push(encode_opt_string(&c.repository_path));
    r.push(encode_opt_string(&c.current_branch));
    r.push(encode_opt_string(&c.auth_method));
    r.push(encode_opt_string(&c.ssh_key_path));
    r.push(encode_opt_string(&c.ssh_passphrase_key));
    r.push(encode_opt_string(&c.github_token_key));
    r.push(encode_opt_string(&c.git_user_name));
    r.push(encode_opt_string(&c.git_user_email));
    r.push(encode_opt_string(&c.remote_name));
    r.push(encode_opt_string(&c.remote_url));
    r.push(encode_bool(c.is_configured));
    r.push(encode_opt_i64(&c.last_fetch));
    r.push(encode_opt_string(&c.commit_message_style));
    r.push(encode_opt_string(&c.commit_message_provider));
    r.push(encode_opt_string(&c.commit_message_language));
    r.push(i64_to_string(c.created_at));
    r.push(i64_to_string(c.updated_at));
    r
}

/// A configuration from its eighteen stored fields; each unreadable field
/// falls back to the default configuration's value for it.
pub fn decode_config(fields: &Vec<Option<String>>) -> (r: GitConfig)
    requires
        fields@.len() == 18,
    ensures
        id_decodes_to(fields@[0], r.id),
        opt_str_decodes_to(fields@[1], r.repository_path),
        opt_str_decodes_to(fields@[2], r.current_branch),
        opt_str_decodes_to(fields@[3], r.auth_method),
        opt_str_decodes_to(fields@[4], r.ssh_key_path),
        opt_str_decodes_to(fields@[5], r.ssh_passphrase_key),
        opt_str_decodes_to(fields@[6], r.github_token_key),
        opt_str_decodes_to(fields@[7], r.git_user_name),
        opt_str_decodes_to(fields@[8], r.git_user_email),
        opt_str_decodes_to(fields@[9], r.remote_name),
        opt_str_decodes_to(fields@[10], r.remote_url),
        bool_decodes_to(fields@[11], r.is_configured),
        opt_i64_decodes_to(fields@[12], r.last_fetch),
        opt_str_decodes_to(fields@[13], r.commit_message_style),
        opt_str_decodes_to(fields@[14], r.commit_message_provider),
        opt_str_decodes_to(fields@[15], r.commit_message_language),
        i64_decodes_to(fields@[16], r.created_at),
        i64_decodes_to(fields@[17], r.updated_at),
{
    GitConfig {
        id: decode_id(&fields[0]),
        repository_path: decode_opt_string(&fields[1]),
        current_branch: decode_opt_string(&fields[2]),
        auth_method: decode_opt_string(&fields[3]),
        ssh_key_path: decode_opt_string(&fields[4]),
        ssh_passphrase_key: decode_opt_string(&fields[5]),
        github_token_key: decode_opt_string(&fields[6]),
        git_user_name: decode_opt_string(&fields[7]),
        git_user_email: decode_opt_string(&fields[8]),
        remote_name: decode_opt_string(&fields[9]),
        remote_url: decode_opt_string(&fields[10]),
        is_configured: decode_bool(&fields[11]),
        last_fetch: decode_opt_i64(&fields[12]),
        commit_message_style: decode_opt_string(&fields[13]),
        commit_message_provider: decode_opt_string(&fields[14]),
        commit_message_language: decode_opt_string(&fields[15]),
        created_at: decode_i64(&fields[16]),
        updated_at: decode_i64(&fields[17]),
    }
}

/// An encoded optional string decodes back to it.
proof fn lemma_opt_str_rt(v: Option<String>, t: Option<String>, w: Option<String>)
    requires
        t matches Some(s) && s@ == enc_opt_str_spec(v),
        opt_str_decodes_to(t, w),
    ensures
        opt_str_eqv(w, v),
{
    reveal_strlit("N");
    reveal_strlit("S");
    match v {
        None => {
            assert(t->0@[0] == 'N');
        },
        Some(x) => {
            assert(t->0@[0] == 'S');
            assert(("S"@ + x@).subrange(1, ("S"@ + x@).len() as int) =~= x@);
        },
    }
}

/// An encoded optional timestamp decodes back to it.
proof fn lemma_opt_i64_rt(v: Option<i64>, t: Option<String>, w: Option<i64>)
    requires
        t matches Some(s) && s@ == enc_opt_i64_spec(v),
        opt_i64_decodes_to(t, w),
    ensures
        w == v,
{
    reveal_strlit("N");
    reveal_strlit("S");
    match v {
        None => {
            assert(t->0@[0] == 'N');
        },
        Some(n) => {
            assert(t->0@[0] == 'S');
            let enc = enc_i64_spec(n as int);
            assert(("S"@ + enc).subrange(1, ("S"@ + enc).len() as int) =~= enc);
            lemma_parse_enc_i64(n);
        },
    }
}

/// An encoded timestamp parses back to it.
proof fn lemma_parse_enc_i64(n: i64)
    ensures
        spec_parse_i64(enc_i64_spec(n as int)) == Some(n as int),
{
    if n >= 0 {
        lemma_dec_rep_val(n as nat);
        let s = dec_rep(n as nat);
        assert(s[0] != '-');
        assert(spec_parse_i64(s) == Some(n as int));
    } else {
        let m = (-(n as int)) as nat;
        lemma_dec_rep_val(m);
        let s = seq!['-'] + dec_rep(m);
        assert(s[0] == '-');
        assert(s.subrange(1, s.len() as int) =~= dec_rep(m));
        assert(spec_parse_i64(s) == Some(-(m as int)));
    }
}

/// An encoded bool decodes back to it.
proof fn lemma_bool_rt(v: bool, t: Option<String>, w: bool)
    requires
        t matches Some(s) && s@ == enc_bool_spec(v),
        bool_decodes_to(t, w),
    ensures
        w == v,
{
    reveal_strlit("1");
    reveal_strlit("0");
    if !v {
        assert(t->0@[0] == '0');
    }
}

/// An encoded plain timestamp decodes back to it.
proof fn lemma_i64_rt(v: i64, t: Option<String>, w: i64)
    requires
        t matches Some(s) && s@ == enc_i64_spec(v as int),
        i64_decodes_to(t, w),
    ensures
        w == v,
{
    lemma_parse_enc_i64(v);
}

/// Law: a configuration written to the settings store field by field and read
/// back decodes to the same configuration. `stored` is what the store holds
/// after a save of `c` (each field present, holding its encoding); `r` is any
/// configuration the decoders may then produce.
pub proof fn lemma_config_round_trip(c: GitConfig, stored: Seq<Option<String>>, r: GitConfig)
    requires
        stored.len() == 18,
        stored[0] matches Some(s) && s@ == c.id@,
        stored[1] matches Some(s) && s@ == enc_opt_str_spec(c.repository_path),
        stored[2] matches Some(s) && s@ == enc_opt_str_spec(c.current_branch),
        stored[3] matches Some(s) && s@ == enc_opt_str_spec(c.auth_method),
        stored[4] matches Some(s) && s@ == enc_opt_str_spec(c.ssh_key_path),
        stored[5] matches Some(s) && s@ == enc_opt_str_spec(c.ssh_passphrase_key),
        stored[6] matches Some(s) && s@ == enc_opt_str_spec(c.github_token_key),
        stored[7] matches Some(s) && s@ == enc_opt_str_spec(c.git_user_name),
        stored[8] matches Some(s) && s@ == enc_opt_str_spec(c.git_user_email),
        stored[9] matches Some(s) && s@ == enc_opt_str_spec(c.remote_name),
        stored[10] matches Some(s) && s@ == enc_opt_str_spec(c.remote_url),
        stored[11] matches Some(s) && s@ == enc_bool_spec(c.is_configured),
        stored[12] matches Some(s) && s@ == enc_opt_i64_spec(c.last_fetch),
        stored[13] matches Some(s) && s@ == enc_opt_str_spec(c.commit_message_style),
        stored[14] matches Some(s) && s@ == enc_opt_str_spec(c.commit_message_provider),
        stored[15] matches Some(s) && s@ == enc_opt_str_spec(c.commit_message_language),
        stored[16] matches Some(s) && s@ == enc_i64_spec(c.created_at as int),
        stored[17] matches Some(s) && s@ == enc_i64_spec(c.updated_at as int),
        id_decodes_to(stored[0], r.id),
        opt_str_decodes_to(stored[1], r.repository_path),
        opt_str_decodes_to(stored[2], r.current_branch),
        opt_str_decodes_to(stored[3], r.auth_method),
        opt_str_decodes_to(stored[4], r.ssh_key_path),
        opt_str_decodes_to(stored[5], r.ssh_passphrase_key),
        opt_str_decodes_to(stored[6], r.github_token_key),
        opt_str_decodes_to(stored[7], r.git_user_name),
        opt_str_decodes_to(stored[8], r.git_user_email),
        opt_str_decodes_to(stored[9], r.remote_name),
        opt_str_decodes_to(stored[10], r.remote_url),
        bool_decodes_to(stored[11], r.is_configured),
        opt_i64_decodes_to(stored[12], r.last_fetch),
        opt_str_decodes_to(stored[13], r.commit_message_style),
        opt_str_decodes_to(stored[14], r.commit_message_provider),
        opt_str_decodes_to(stored[15], r.commit_message_language),
        i64_decodes_to(stored[16], r.created_at),
        i64_decodes_to(stored[17], r.updated_at),
    ensures
        r.id@ == c.id@,
        opt_str_eqv(r.repository_path, c.repository_path),
        opt_str_eqv(r.current_branch, c.current_branch),
        opt_str_eqv(r.auth_method, c.auth_method),
        opt_str_eqv(r.ssh_key_path, c.ssh_key_path),
        opt_str_eqv(r.ssh_passphrase_key, c.ssh_passphrase_key),
        opt_str_eqv(r.github_token_key, c.github_token_key),
        opt_str_eqv(r.git_user_name, c.git_user_name),
        opt_str_eqv(r.git_user_email, c.git_user_email),
        opt_str_eqv(r.remote_name, c.remote_name),
        opt_str_eqv(r.remote_url, c.remote_url),
        r.is_configured == c.is_configured,
        r.last_fetch == c.last_fetch,
        opt_str_eqv(r.commit_message_style, c.commit_message_style),
        opt_str_eqv(r.commit_message_provider, c.commit_message_provider),
        opt_str_eqv(r.commit_message_language, c.commit_message_language),
        r.created_at == c.created_at,
        r.updated_at == c.updated_at,
{
    lemma_opt_str_rt(c.repository_path, stored[1], r.repository_path);
    lemma_opt_str_rt(c.current_branch, stored[2], r.current_branch);
    lemma_opt_str_rt(c.auth_method, stored[3], r.auth_method);
    lemma_opt_str_rt(c.ssh_key_path, stored[4], r.ssh_key_path);
    lemma_opt_str_rt(c.ssh_passphrase_key, stored[5], r.ssh_passphrase_key);
    lemma_opt_str_rt(c.github_token_key, stored[6], r.github_token_key);
    lemma_opt_str_rt(c.git_user_name, stored[7], r.git_user_name);
    lemma_opt_str_rt(c.git_user_email, stored[8], r.git_user_email);
    lemma_opt_str_rt(c.remote_name, stored[9], r.remote_name);
    lemma_opt_str_rt(c.remote_url, stored[10], r.remote_url);
    lemma_bool_rt(c.is_configured, stored[11], r.is_configured);
    lemma_opt_i64_rt(c.last_fetch, stored[12], r.last_fetch);
    lemma_opt_str_rt(c.commit_message_style, stored[13], r.commit_message_style);
    lemma_opt_str_rt(c.commit_message_provider, stored[14], r.commit_message_provider);
    lemma_opt_str_rt(c.commit_message_language, stored[15], r.commit_message_language);
    lemma_i64_rt(c.created_at, stored[16], r.created_at);
    lemma_i64_rt(c.updated_at, stored[17], r.updated_at);
}

} // verus!

