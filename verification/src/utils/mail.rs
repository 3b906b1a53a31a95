//! The mail that carries a one-time code.

use vstd::prelude::*;

use crate::text::owned;

verus! {

/// The page up to the name.
pub const MAIL_GREETING: &'static str = r#"
        <!DOCTYPE html>
        <html><head><meta charset="UTF-8"><title>Noap OTP</title></head>
        <body style="font-family:Arial,sans-serif;background:#FFFFFF;padding:0;margin:0">
        <div style="max-width:600px;margin:0 auto;background:#EFEFEF;border-radius:20px;padding:40px">
        <h3 style="color:#2D3142">Hi, "#;

/// The page from the name to the code.
pub const MAIL_TEXT: &'static str = r#"!</h3>
        <p>Here is your OTP code, please <strong>DO NOT SHARE WITH ANYONE</strong></p>
        <div style="background:#e71e0a;border-radius:50px;padding:20px;text-align:center;color:#fff;font-size:39px;font-family:monospace">"#;

/// The page after the code.
pub const MAIL_CLOSING: &'static str = r#"</div>
        <p>Thanks,<br>Noap team</p>
        <p style="font-size:14px;color:#2D3142">This code expire in 1 hour.</p>
        </div></body></html>
    "#;

/// The page that greets `user_name` and shows `otp`.
pub open spec fn mail_page(otp: Seq<char>, user_name: Seq<char>) -> Seq<char> {
    MAIL_GREETING@ + user_name + MAIL_TEXT@ + otp + MAIL_CLOSING@
}

/// The HTML body of the mail with a one-time code.
pub fn mail_html(otp: &str, user_name: &str) -> (r: String)
    ensures
        r@ == mail_page(otp@, user_name@),
{
    let mut s = owned(MAIL_GREETING);
    s.push_str(user_name);
    s.push_str(MAIL_TEXT);
    s.push_str(otp);
    s.push_str(MAIL_CLOSING);
    s
}

/// Whether `lettre::message::Mailbox` reads a text as a mailbox.
pub uninterp spec fn is_mailbox(s: Seq<char>) -> bool;

/// `lettre::message::Mailbox::from_str`, of which only the verdict is kept: a
/// function of the text.
#[verifier::external_body]
pub(crate) fn reads_as_mailbox(s: &str) -> (r: bool)
    ensures
        r == is_mailbox(s@),
{
    s.parse::<lettre::message::Mailbox>().is_ok()
}

} // verus!
