//! The text shown to the user while the device flow waits for them.

use vstd::prelude::*;
use crate::config::Messages;
use crate::flow::DeviceAuthorization;

verus! {

/// A rendered QR code. It encodes the verification address, which may hold
/// the user code, so it is kept apart from what gets logged.
pub struct QrString(pub String);

impl QrString {
    pub fn new(s: String) -> (r: QrString)
        ensures
            r.0 == s,
    {
        QrString(s)
    }

    pub fn secret(&self) -> (r: &String)
        ensures
            *r == self.0,
    {
        &self.0
    }
}

/// Everything the prompt shows.
pub struct UserPrompt {
    pub qrcode: Option<QrString>,
    pub verification_uri_complete: Option<String>,
    pub verification_uri: String,
    pub user_code: String,
    pub messages: Messages,
}

/// Each line preceded by a line break.
pub open spec fn lines_text(lines: Seq<Seq<char>>) -> Seq<char>
    decreases lines.len(),
{
    if lines.len() == 0 {
        Seq::empty()
    } else {
        lines_text(lines.drop_last()) + seq!['\n'] + lines.last()
    }
}

fn copy_messages(m: &Messages) -> (r: Messages)
    ensures
        r == *m,
{
    Messages {
        prompt_complete: m.prompt_complete.clone(),
        prompt_no_qr_complete: m.prompt_no_qr_complete.clone(),
        prompt_incomplete: m.prompt_incomplete.clone(),
        prompt_no_qr_incomplete: m.prompt_no_qr_incomplete.clone(),
        prompt_code: m.prompt_code.clone(),
        prompt_enter: m.prompt_enter.clone(),
    }
}

fn copy_opt(s: &Option<String>) -> (r: Option<String>)
    ensures
        r == *s,
{
    match s {
        Some(v) => Some(v.clone()),
        None => None,
    }
}

fn push_line(out: &mut String, line: &str)
    ensures
        final(out)@ == old(out)@ + seq!['\n'] + line@,
{
    let ghost before = out@;
    out.append("\n");
    out.append(line);
    proof {
        reveal_strlit("\n");
        assert(out@ =~= before + seq!['\n'] + line@);
    }
}

impl UserPrompt {
    /// The lines of the prompt. With a complete verification address the
    /// user only follows it; otherwise the prompt also shows the user code.
    pub open spec fn lines(&self) -> Seq<Seq<char>> {
        let m = self.messages;
        match (self.qrcode, self.verification_uri_complete) {
            (Some(qr), Some(url)) => seq![qr.0@, m.prompt_complete@, url@, m.prompt_enter@],
            (None, Some(url)) => seq![m.prompt_no_qr_complete@, url@, m.prompt_enter@],
            (Some(qr), None) => seq![
                qr.0@,
                m.prompt_incomplete@,
                self.verification_uri@,
                m.prompt_code@,
                self.user_code@,
                m.prompt_enter@,
            ],
            (None, None) => seq![
                m.prompt_no_qr_incomplete@,
                self.verification_uri@,
                m.prompt_code@,
                self.user_code@,
                m.prompt_enter@,
            ],
        }
    }

    pub fn new(auth: &DeviceAuthorization, messages: &Messages) -> (r: UserPrompt)
        ensures
            r.qrcode is None,
            r.verification_uri_complete == auth.verification_uri_complete,
            r.verification_uri == auth.verification_uri,
            r.user_code == auth.user_code,
            r.messages == *messages,
    {
        UserPrompt {
            qrcode: None,
            verification_uri_complete: copy_opt(&auth.verification_uri_complete),
            verification_uri: auth.verification_uri.clone(),
            user_code: auth.user_code.clone(),
            messages: copy_messages(messages),
        }
    }

    /// The address a QR code should encode: the complete one if there is one.
    pub fn qr_target(&self) -> (r: &String)
        ensures
            *r == match self.verification_uri_complete {
                Some(u) => u,
                None => self.verification_uri,
            },
    {
        match &self.verification_uri_complete {
            Some(u) => u,
            None => &self.verification_uri,
        }
    }

    /// Puts in the QR code to show, or takes it out.
    pub fn set_qr(&mut self, qrcode: Option<QrString>)
        ensures
            *final(self) == (UserPrompt { qrcode, ..*old(self) }),
    {
        self.qrcode = qrcode;
    }

    /// The prompt as sent to the user.
    pub fn render(&self) -> (r: String)
        ensures
            r@ == lines_text(self.lines()),
    {
        let m = &self.messages;
        let mut out = String::new();
        match (&self.qrcode, &self.verification_uri_complete) {
            (Some(qr), Some(url)) => {
                push_line(&mut out, qr.secret().as_str());
                push_line(&mut out, m.prompt_complete.as_str());
                push_line(&mut out, url.as_str());
                push_line(&mut out, m.prompt_enter.as_str());
            },
            (None, Some(url)) => {
                push_line(&mut out, m.prompt_no_qr_complete.as_str());
                push_line(&mut out, url.as_str());
                push_line(&mut out, m.prompt_enter.as_str());
            },
            (Some(qr), None) => {
                push_line(&mut out, qr.secret().as_str());
                push_line(&mut out, m.prompt_incomplete.as_str());
                push_line(&mut out, self.verification_uri.as_str());
                push_line(&mut out, m.prompt_code.as_str());
                push_line(&mut out, self.user_code.as_str());
                push_line(&mut out, m.prompt_enter.as_str());
            },
            (None, None) => {
                push_line(&mut out, m.prompt_no_qr_incomplete.as_str());
                push_line(&mut out, self.verification_uri.as_str());
                push_line(&mut out, m.prompt_code.as_str());
                push_line(&mut out, self.user_code.as_str());
                push_line(&mut out, m.prompt_enter.as_str());
            },
        }
        proof {
            reveal_with_fuel(lines_text, 7);
            assert(lines_text(self.lines()) =~= out@);
        }
        out
    }
}

} // verus!
