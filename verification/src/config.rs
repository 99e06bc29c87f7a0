//! The part of the configuration that the pipeline reads.

use vstd::prelude::*;

verus! {

/// Credentials, voice selection and output device, fixed for the life of the
/// process. Window placement and font size are presentation and are kept by
/// the caller. Nothing here is validated beyond being present: a wrong token
/// or voice shows up as a failed synthesis, a wrong device name as a failed
/// device lookup.
#[derive(Clone, Debug, PartialEq, Eq)]
pub struct Configuration {
    /// API key sent with every synthesis request.
    pub gcloud_token: String,
    /// Language code of the voice, such as `en-US`.
    pub gcloud_language: String,
    /// Name of the voice.
    pub gcloud_voice: String,
    /// Name of the output device to play on.
    pub output_device: String,
}

/// A [`Configuration`] as plain text values.
pub struct ConfigurationView {
    pub gcloud_token: Seq<char>,
    pub gcloud_language: Seq<char>,
    pub gcloud_voice: Seq<char>,
    pub output_device: Seq<char>,
}

impl View for Configuration {
    type V = ConfigurationView;

    open spec fn view(&self) -> ConfigurationView {
        ConfigurationView {
            gcloud_token: self.gcloud_token@,
            gcloud_language: self.gcloud_language@,
            gcloud_voice: self.gcloud_voice@,
            output_device: self.output_device@,
        }
    }
}

impl Configuration {
    /// An independent copy with the same field values.
    pub fn snapshot(&self) -> (copy: Configuration)
        ensures
            copy@ == self@,
    {
        Configuration {
            gcloud_token: self.gcloud_token.clone(),
            gcloud_language: self.gcloud_language.clone(),
            gcloud_voice: self.gcloud_voice.clone(),
            output_device: self.output_device.clone(),
        }
    }
}

} // verus!
