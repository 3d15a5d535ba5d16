//! Data passed between the game library's front end and its store, and the
//! cleaning that turns blank text into absent values.

use vstd::prelude::*;
use crate::text::{is_blank, is_blank_text, trim, trimmed};

verus! {

/// A JSON document, carried through untouched (the metadata of a game as
/// fetched from a catalogue).
#[verifier::external_type_specification]
#[verifier::external_body]
pub struct ExJsonValue(serde_json::Value);

/// `s` with blank text taken for no value.
pub open spec fn clean_opt(s: Option<String>) -> Option<String> {
    match s {
        Some(v) => if is_blank(v@) {
            None
        } else {
            Some(v)
        },
        None => None,
    }
}

/// An update field with blank text taken for "set to no value"; an absent
/// field stays absent.
pub open spec fn clean_update(s: Option<Option<String>>) -> Option<Option<String>> {
    match s {
        Some(inner) => Some(clean_opt(inner)),
        None => None,
    }
}

/// Turns blank text, empty or white space only, into `None`.
pub fn clean_option_string(s: Option<String>) -> (r: Option<String>)
    ensures
        r == clean_opt(s),
{
    match s {
        Some(v) => {
            if is_blank_text(v.as_str()) {
                None
            } else {
                Some(v)
            }
        },
        None => None,
    }
}

/// Cleans the inner value of an update field: `Some(blank)` becomes
/// `Some(None)`, so that "provided" stays distinct from "not provided".
pub fn clean_double_option_string(s: Option<Option<String>>) -> (r: Option<Option<String>>)
    ensures
        r == clean_update(s),
{
    match s {
        Some(inner) => Some(clean_option_string(inner)),
        None => None,
    }
}

/// A new game for the library.
#[derive(Clone, Debug)]
pub struct InsertGameData {
    pub bgm_id: Option<String>,
    pub vndb_id: Option<String>,
    pub ymgal_id: Option<String>,
    pub id_type: String,
    pub date: Option<String>,
    pub localpath: Option<String>,
    pub savepath: Option<String>,
    pub autosave: Option<i32>,
    pub maxbackups: Option<i32>,
    pub clear: Option<i32>,
    pub le_launch: Option<i32>,
    pub magpie: Option<i32>,
    pub vndb_data: Option<serde_json::Value>,
    pub bgm_data: Option<serde_json::Value>,
    pub ymgal_data: Option<serde_json::Value>,
    pub custom_data: Option<serde_json::Value>,
}

impl InsertGameData {
    /// The same data with blank ids, date and paths taken for no value.
    pub fn cleaned(self) -> (r: Self)
        ensures
            r == (InsertGameData {
                bgm_id: clean_opt(self.bgm_id),
                vndb_id: clean_opt(self.vndb_id),
                ymgal_id: clean_opt(self.ymgal_id),
                date: clean_opt(self.date),
                localpath: clean_opt(self.localpath),
                savepath: clean_opt(self.savepath),
                ..self
            }),
    {
        let mut d = self;
        d.bgm_id = clean_option_string(d.bgm_id);
        d.vndb_id = clean_option_string(d.vndb_id);
        d.ymgal_id = clean_option_string(d.ymgal_id);
        d.date = clean_option_string(d.date);
        d.localpath = clean_option_string(d.localpath);
        d.savepath = clean_option_string(d.savepath);
        d
    }
}

/// A partial update of a game: an absent field is left as it is; for the
/// nullable fields `Some(None)` clears the stored value.
#[derive(Clone, Debug)]
pub struct UpdateGameData {
    pub bgm_id: Option<Option<String>>,
    pub vndb_id: Option<Option<String>>,
    pub ymgal_id: Option<Option<String>>,
    pub id_type: Option<String>,
    pub date: Option<Option<String>>,
    pub localpath: Option<Option<String>>,
    pub savepath: Option<Option<String>>,
    pub autosave: Option<Option<i32>>,
    pub maxbackups: Option<Option<i32>>,
    pub clear: Option<Option<i32>>,
    pub le_launch: Option<Option<i32>>,
    pub magpie: Option<Option<i32>>,
    pub vndb_data: Option<Option<serde_json::Value>>,
    pub bgm_data: Option<Option<serde_json::Value>>,
    pub ymgal_data: Option<Option<serde_json::Value>>,
    pub custom_data: Option<Option<serde_json::Value>>,
}

impl UpdateGameData {
    /// The same update with blank ids, date and paths turned into "clear".
    pub fn cleaned(self) -> (r: Self)
        ensures
            r == (UpdateGameData {
                bgm_id: clean_update(self.bgm_id),
                vndb_id: clean_update(self.vndb_id),
                ymgal_id: clean_update(self.ymgal_id),
                date: clean_update(self.date),
                localpath: clean_update(self.localpath),
                savepath: clean_update(self.savepath),
                ..self
            }),
    {
        let mut d = self;
        d.bgm_id = clean_double_option_string(d.bgm_id);
        d.vndb_id = clean_double_option_string(d.vndb_id);
        d.ymgal_id = clean_double_option_string(d.ymgal_id);
        d.date = clean_double_option_string(d.date);
        d.localpath = clean_double_option_string(d.localpath);
        d.savepath = clean_double_option_string(d.savepath);
        d
    }
}

/// A new collection of games.
#[derive(Clone, Debug)]
pub struct InsertCollectionData {
    pub name: String,
    pub parent_id: Option<i32>,
    pub sort_order: i32,
    pub icon: Option<String>,
}

impl InsertCollectionData {
    /// The same data with the name trimmed and a blank icon taken for none.
    pub fn cleaned(self) -> (r: Self)
        ensures
            r.name@ == trimmed(self.name@),
            r.parent_id == self.parent_id,
            r.sort_order == self.sort_order,
            r.icon == clean_opt(self.icon),
    {
        let mut d = self;
        d.name = trim(d.name.as_str()).to_owned();
        d.icon = clean_option_string(d.icon);
        d
    }
}

/// A partial update of a collection.
#[derive(Clone, Debug)]
pub struct UpdateCollectionData {
    pub name: Option<String>,
    pub parent_id: Option<Option<i32>>,
    pub sort_order: Option<i32>,
    pub icon: Option<Option<String>>,
}

impl UpdateCollectionData {
    /// The same update with a given name trimmed and a blank icon turned into
    /// "clear".
    pub fn cleaned(self) -> (r: Self)
        ensures
            r.name is Some <==> self.name is Some,
            r.name is Some ==> r.name->0@ == trimmed(self.name->0@),
            r.parent_id == self.parent_id,
            r.sort_order == self.sort_order,
            r.icon == clean_update(self.icon),
    {
        let mut d = self;
        d.name = match d.name {
            Some(name) => Some(trim(name.as_str()).to_owned()),
            None => None,
        };
        d.icon = clean_double_option_string(d.icon);
        d
    }
}

/// Settings to change; an absent field is left as it is.
#[derive(Clone, Debug)]
pub struct UpdateSettingsData {
    pub bgm_token: Option<String>,
    pub save_root_path: Option<String>,
    pub db_backup_path: Option<String>,
    pub le_path: Option<String>,
    pub magpie_path: Option<String>,
}

impl Default for UpdateSettingsData {
    fn default() -> (r: Self)
        ensures
            r.bgm_token is None,
            r.save_root_path is None,
            r.db_backup_path is None,
            r.le_path is None,
            r.magpie_path is None,
    {
        UpdateSettingsData {
            bgm_token: None,
            save_root_path: None,
            db_backup_path: None,
            le_path: None,
            magpie_path: None,
        }
    }
}

impl UpdateSettingsData {
    /// The same settings with blank values taken for none.
    pub fn cleaned(self) -> (r: Self)
        ensures
            r == (UpdateSettingsData {
                bgm_token: clean_opt(self.bgm_token),
                save_root_path: clean_opt(self.save_root_path),
                db_backup_path: clean_opt(self.db_backup_path),
                le_path: clean_opt(self.le_path),
                magpie_path: clean_opt(self.magpie_path),
            }),
    {
        let mut d = self;
        d.bgm_token = clean_option_string(d.bgm_token);
        d.save_root_path = clean_option_string(d.save_root_path);
        d.db_backup_path = clean_option_string(d.db_backup_path);
        d.le_path = clean_option_string(d.le_path);
        d.magpie_path = clean_option_string(d.magpie_path);
        d
    }
}

/// How the front end asks for a game to be launched.
#[derive(Clone, Copy, Debug)]
pub struct GameLaunchOptions {
    pub le_launch: Option<bool>,
    pub magpie: Option<bool>,
}

} // verus!
