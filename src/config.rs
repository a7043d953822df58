//! Deployment settings that the core reads, and their defaults.

use vstd::prelude::*;

verus! {

/// The texts of the login prompt.
pub struct Messages {
    pub prompt_complete: String,
    pub prompt_no_qr_complete: String,
    pub prompt_incomplete: String,
    pub prompt_no_qr_incomplete: String,
    pub prompt_code: String,
    pub prompt_enter: String,
}

impl Messages {
    pub fn default_complete() -> (r: String)
        ensures
            r@ == "Scan the QR code above or open the following link in your web browser:"@,
    {
        String::from_str("Scan the QR code above or open the following link in your web browser:")
    }

    pub fn default_no_qr_complete() -> (r: String)
        ensures
            r@ == "Open the following link in your web browser:"@,
    {
        String::from_str("Open the following link in your web browser:")
    }

    pub fn default_incomplete() -> (r: String)
        ensures
            r@ == "Scan the QR code above or open the following link in your web browser:"@,
    {
        String::from_str("Scan the QR code above or open the following link in your web browser:")
    }

    pub fn default_no_qr_incomplete() -> (r: String)
        ensures
            r@ == "Open the following link in your web browser:"@,
    {
        String::from_str("Open the following link in your web browser:")
    }

    pub fn default_code() -> (r: String)
        ensures
            r@ == "Once you're in, enter the following code:"@,
    {
        String::from_str("Once you're in, enter the following code:")
    }

    pub fn default_enter() -> (r: String)
        ensures
            r@ == "Press \"ENTER\" after successful authentication..."@,
    {
        String::from_str("Press \"ENTER\" after successful authentication...")
    }
}

impl Default for Messages {
    fn default() -> (r: Messages)
        ensures
            r.prompt_complete@ == "Scan the QR code above or open the following link in your web browser:"@,
            r.prompt_no_qr_complete@ == "Open the following link in your web browser:"@,
            r.prompt_incomplete@ == "Scan the QR code above or open the following link in your web browser:"@,
            r.prompt_no_qr_incomplete@ == "Open the following link in your web browser:"@,
            r.prompt_code@ == "Once you're in, enter the following code:"@,
            r.prompt_enter@ == "Press \"ENTER\" after successful authentication..."@,
    {
        Messages {
            prompt_complete: Messages::default_complete(),
            prompt_no_qr_complete: Messages::default_no_qr_complete(),
            prompt_incomplete: Messages::default_incomplete(),
            prompt_no_qr_incomplete: Messages::default_no_qr_incomplete(),
            prompt_code: Messages::default_code(),
            prompt_enter: Messages::default_enter(),
        }
    }
}

/// Scopes asked for when the configuration names none.
pub fn default_scopes() -> (r: String)
    ensures
        r@ == "openid profile"@,
{
    String::from_str("openid profile")
}

/// QR codes are shown unless the configuration turns them off.
pub fn default_true() -> (r: bool)
    ensures
        r,
{
    true
}

} // verus!
