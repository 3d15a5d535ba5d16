//! The user's settings record and the rules for reading and changing it.

use vstd::prelude::*;
use crate::dto::{clean_opt, clean_option_string, UpdateSettingsData};

verus! {

/// The single settings record of the user.
#[derive(Clone, Debug)]
pub struct UserSettings {
    pub bgm_token: Option<String>,
    pub bgm_username: Option<String>,
    pub bgm_avatar: Option<String>,
    pub save_root_path: Option<String>,
    pub db_backup_path: Option<String>,
    pub le_path: Option<String>,
    pub magpie_path: Option<String>,
}

/// A stored value as read back: the empty text when there is none.
pub open spec fn or_empty(s: Option<String>) -> Seq<char> {
    match s {
        Some(v) => v@,
        None => Seq::empty(),
    }
}

/// A field of a batch update applied to a stored value: a given value
/// replaces it, an absent one leaves it.
pub open spec fn updated(current: Option<String>, given: Option<String>) -> Option<String> {
    match given {
        Some(v) => Some(v),
        None => current,
    }
}

fn read_or_empty(s: &Option<String>) -> (r: String)
    ensures
        r@ == or_empty(*s),
{
    match s {
        Some(v) => v.clone(),
        None => String::new(),
    }
}

impl UserSettings {
    /// The record created when none exists: every setting absent.
    pub fn new() -> (r: Self)
        ensures
            r.bgm_token is None,
            r.bgm_username is None,
            r.bgm_avatar is None,
            r.save_root_path is None,
            r.db_backup_path is None,
            r.le_path is None,
            r.magpie_path is None,
    {
        UserSettings {
            bgm_token: None,
            bgm_username: None,
            bgm_avatar: None,
            save_root_path: None,
            db_backup_path: None,
            le_path: None,
            magpie_path: None,
        }
    }

    pub fn get_bgm_token(&self) -> (r: String)
        ensures
            r@ == or_empty(self.bgm_token),
    {
        read_or_empty(&self.bgm_token)
    }

    /// Stores `token`; blank text clears it.
    pub fn set_bgm_token(&mut self, token: String)
        ensures
            (*final(self)) == (UserSettings { bgm_token: clean_opt(Some(token)), ..*old(self) }),
    {
        self.bgm_token = clean_option_string(Some(token));
    }

    /// The user name and the avatar, each empty when absent.
    pub fn get_bgm_profile(&self) -> (r: (String, String))
        ensures
            r.0@ == or_empty(self.bgm_username),
            r.1@ == or_empty(self.bgm_avatar),
    {
        (read_or_empty(&self.bgm_username), read_or_empty(&self.bgm_avatar))
    }

    /// Stores the user name and the avatar; absent or blank ones clear them.
    pub fn set_bgm_profile(&mut self, username: Option<String>, avatar: Option<String>)
        ensures
            (*final(self)) == (UserSettings {
                bgm_username: clean_opt(username),
                bgm_avatar: clean_opt(avatar),
                ..*old(self)
            }),
    {
        self.bgm_username = clean_option_string(username);
        self.bgm_avatar = clean_option_string(avatar);
    }

    pub fn get_save_root_path(&self) -> (r: String)
        ensures
            r@ == or_empty(self.save_root_path),
    {
        read_or_empty(&self.save_root_path)
    }

    /// Stores `path`; blank text clears it.
    pub fn set_save_root_path(&mut self, path: String)
        ensures
            (*final(self)) == (UserSettings { save_root_path: clean_opt(Some(path)), ..*old(self) }),
    {
        self.save_root_path = clean_option_string(Some(path));
    }

    pub fn get_db_backup_path(&self) -> (r: String)
        ensures
            r@ == or_empty(self.db_backup_path),
    {
        read_or_empty(&self.db_backup_path)
    }

    /// Stores `path`; blank text clears it.
    pub fn set_db_backup_path(&mut self, path: String)
        ensures
            (*final(self)) == (UserSettings { db_backup_path: clean_opt(Some(path)), ..*old(self) }),
    {
        self.db_backup_path = clean_option_string(Some(path));
    }

    pub fn get_le_path(&self) -> (r: String)
        ensures
            r@ == or_empty(self.le_path),
    {
        read_or_empty(&self.le_path)
    }

    /// Stores `path`; blank text clears it.
    pub fn set_le_path(&mut self, path: String)
        ensures
            (*final(self)) == (UserSettings { le_path: clean_opt(Some(path)), ..*old(self) }),
    {
        self.le_path = clean_option_string(Some(path));
    }

    pub fn get_magpie_path(&self) -> (r: String)
        ensures
            r@ == or_empty(self.magpie_path),
    {
        read_or_empty(&self.magpie_path)
    }

    /// Stores `path`; blank text clears it.
    pub fn set_magpie_path(&mut self, path: String)
        ensures
            (*final(self)) == (UserSettings { magpie_path: clean_opt(Some(path)), ..*old(self) }),
    {
        self.magpie_path = clean_option_string(Some(path));
    }

    /// Applies a batch update: blank values count as absent, and each
    /// remaining value replaces the stored one.
    pub fn update_settings(&mut self, data: UpdateSettingsData)
        ensures
            (*final(self)) == (UserSettings {
                bgm_token: updated(old(self).bgm_token, clean_opt(data.bgm_token)),
                save_root_path: updated(old(self).save_root_path, clean_opt(data.save_root_path)),
                db_backup_path: updated(old(self).db_backup_path, clean_opt(data.db_backup_path)),
                le_path: updated(old(self).le_path, clean_opt(data.le_path)),
                magpie_path: updated(old(self).magpie_path, clean_opt(data.magpie_path)),
                ..*old(self)
            }),
    {
        let data = data.cleaned();
        if let Some(token) = data.bgm_token {
            self.bgm_token = Some(token);
        }
        if let Some(path) = data.save_root_path {
            self.save_root_path = Some(path);
        }
        if let Some(path) = data.db_backup_path {
            self.db_backup_path = Some(path);
        }
        if let Some(path) = data.le_path {
            self.le_path = Some(path);
        }
        if let Some(path) = data.magpie_path {
            self.magpie_path = Some(path);
        }
    }
}

} // verus!
