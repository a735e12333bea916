//! The configuration the pipeline runs under: service credentials, the
//! notes vault directory and the remote folder that is polled.

use vstd::prelude::*;

verus! {

/// Named string values loaded once at startup. `obsidian_vault_path` is
/// the notes vault directory and `dropbox_audio_path` the remote folder
/// that is polled; the rest are service credentials.
pub struct Config {
    pub dropbox_client_id: String,
    pub dropbox_client_secret: String,
    pub dropbox_access_token: String,
    pub dropbox_auth_token: String,
    pub whisper_api_key: String,
    pub openai_api_key: String,
    pub obsidian_vault_path: String,
    pub dropbox_audio_path: String,
}

impl Clone for Config {
    fn clone(&self) -> (r: Self)
        ensures
            r == *self,
    {
        Config {
            dropbox_client_id: self.dropbox_client_id.clone(),
            dropbox_client_secret: self.dropbox_client_secret.clone(),
            dropbox_access_token: self.dropbox_access_token.clone(),
            dropbox_auth_token: self.dropbox_auth_token.clone(),
            whisper_api_key: self.whisper_api_key.clone(),
            openai_api_key: self.openai_api_key.clone(),
            obsidian_vault_path: self.obsidian_vault_path.clone(),
            dropbox_audio_path: self.dropbox_audio_path.clone(),
        }
    }
}

impl Config {
    /// True where one of the values the pipeline cannot run without is
    /// missing. `dropbox_auth_token` is not among them: the authorization
    /// flow derives it later.
    pub fn has_empty_values(&self) -> (r: bool)
        ensures
            r == (self.dropbox_access_token@.len() == 0 || self.whisper_api_key@.len() == 0
                || self.openai_api_key@.len() == 0 || self.obsidian_vault_path@.len() == 0
                || self.dropbox_client_id@.len() == 0 || self.dropbox_client_secret@.len() == 0
                || self.dropbox_audio_path@.len() == 0),
    {
        self.dropbox_access_token.as_str().is_empty() || self.whisper_api_key.as_str().is_empty()
            || self.openai_api_key.as_str().is_empty()
            || self.obsidian_vault_path.as_str().is_empty()
            || self.dropbox_client_id.as_str().is_empty()
            || self.dropbox_client_secret.as_str().is_empty()
            || self.dropbox_audio_path.as_str().is_empty()
    }

    /// Replaces each prompted value that is empty with the answer supplied
    /// for it and keeps every value that is already set. The caller
    /// gathers the answers (for instance by prompting); this method alone
    /// decides which of them are taken.
    pub fn prompt_and_update_if_empty(&mut self, answers: &Config)
        ensures
            final(self).dropbox_access_token@ == (if old(self).dropbox_access_token@.len() == 0 {
                answers.dropbox_access_token@
            } else {
                old(self).dropbox_access_token@
            }),
            final(self).whisper_api_key@ == (if old(self).whisper_api_key@.len() == 0 {
                answers.whisper_api_key@
            } else {
                old(self).whisper_api_key@
            }),
            final(self).openai_api_key@ == (if old(self).openai_api_key@.len() == 0 {
                answers.openai_api_key@
            } else {
                old(self).openai_api_key@
            }),
            final(self).obsidian_vault_path@ == (if old(self).obsidian_vault_path@.len() == 0 {
                answers.obsidian_vault_path@
            } else {
                old(self).obsidian_vault_path@
            }),
            final(self).dropbox_client_id@ == (if old(self).dropbox_client_id@.len() == 0 {
                answers.dropbox_client_id@
            } else {
                old(self).dropbox_client_id@
            }),
            final(self).dropbox_client_secret@ == (if old(self).dropbox_client_secret@.len()
                == 0 {
                answers.dropbox_client_secret@
            } else {
                old(self).dropbox_client_secret@
            }),
            final(self).dropbox_audio_path@ == (if old(self).dropbox_audio_path@.len() == 0 {
                answers.dropbox_audio_path@
            } else {
                old(self).dropbox_audio_path@
            }),
            final(self).dropbox_auth_token == old(self).dropbox_auth_token,
    {
        if self.dropbox_access_token.as_str().is_empty() {
            self.dropbox_access_token = answers.dropbox_access_token.clone();
        }
        if self.whisper_api_key.as_str().is_empty() {
            self.whisper_api_key = answers.whisper_api_key.clone();
        }
        if self.openai_api_key.as_str().is_empty() {
            self.openai_api_key = answers.openai_api_key.clone();
        }
        if self.obsidian_vault_path.as_str().is_empty() {
            self.obsidian_vault_path = answers.obsidian_vault_path.clone();
        }
        if self.dropbox_client_id.as_str().is_empty() {
            self.dropbox_client_id = answers.dropbox_client_id.clone();
        }
        if self.dropbox_client_secret.as_str().is_empty() {
            self.dropbox_client_secret = answers.dropbox_client_secret.clone();
        }
        if self.dropbox_audio_path.as_str().is_empty() {
            self.dropbox_audio_path = answers.dropbox_audio_path.clone();
        }
    }
}

} // verus!
