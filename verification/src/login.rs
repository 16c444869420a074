use vstd::prelude::*;
use vstd::string::*;
use crate::error::InternalError;
use crate::token::{
    all_digits, digits_val, single_dot_at, subject_part_wf, token_subject, token_wf,
};

verus! {

/// The login policy: the one known demo credential pair. Real credential
/// hashing and verification are out of scope by design; this trust model is
/// demo-grade.
pub open spec fn good_creds(user: Seq<char>, pwd: Seq<char>) -> bool {
    user == "demo1"@ && pwd == "welcome"@
}

/// The token issued on a successful login: subject 1, with a fixed
/// signature-like second part.
pub open spec fn issued_token_chars() -> Seq<char> {
    "ident-1.demo-sign"@
}

/// The login step: on the known credential pair, issue the identity token;
/// on anything else, fail with `LoginFail`.
pub fn check_login(username: &str, pwd: &str) -> (r: Result<String, InternalError>)
    ensures
        good_creds(username@, pwd@) ==> (r matches Ok(t) && t@ == issued_token_chars()),
        !good_creds(username@, pwd@) ==> r == Err::<String, InternalError>(
            InternalError::LoginFail,
        ),
{
    let user_ok = username.to_owned() == String::from_str("demo1");
    let pwd_ok = pwd.to_owned() == String::from_str("welcome");
    if user_ok && pwd_ok {
        Result::Ok(String::from_str("ident-1.demo-sign"))
    } else {
        Result::Err(InternalError::LoginFail)
    }
}

/// The exact body of a successful login response.
pub fn login_success_body() -> (r: String)
    ensures
        r@ == "{\"result\":{\"success\":true}}"@,
{
    String::from_str("{\"result\":{\"success\":true}}")
}

/// Law: the issued token round-trips through the resolver: it is
/// structurally valid and encodes subject id 1, so a login followed by
/// resolution of the set cookie yields a resolved context for subject 1.
pub proof fn lemma_issued_token_resolves()
    ensures
        token_wf(issued_token_chars()),
        token_subject(issued_token_chars()) == 1,
{
    reveal_strlit("ident-1.demo-sign");
    reveal_strlit("ident-");
    let s = issued_token_chars();
    assert(s.len() == 17);
    assert(single_dot_at(s, 7)) by {
        assert(s[7] == '.');
        assert forall|j: int| 0 <= j < s.len() && #[trigger] s[j] == '.' implies j == 7 by {
            if j != 7 {
                assert(s[j] != '.');
            }
        }
    }
    assert(s.subrange(0, 6) =~= "ident-"@);
    let digits = s.subrange(6, 7);
    assert(digits.len() == 1 && digits[0] == '1');
    assert(all_digits(digits));
    assert(digits_val(digits) == 1) by {
        assert(digits.last() == '1');
        assert(digits.drop_last() =~= Seq::<char>::empty());
        assert(digits_val(digits.drop_last()) == 0);
    }
    assert(subject_part_wf(s, 7));
    crate::token::lemma_token_parts(s, 7);
}

} // verus!
