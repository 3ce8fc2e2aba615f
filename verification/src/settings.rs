//! Keyboard-shortcut settings.
//!
//! Every button of the shell can carry a keyboard shortcut. The settings
//! record maps each action to an optional key name; a settings file the
//! user edited may leave any of them out. Reading and writing that file
//! belong to the surrounding application; this module owns the default
//! assignment and the merge that fills a loaded record's gaps from the
//! defaults.
use vstd::prelude::*;
use crate::prefs::option_string_view;

verus! {

/// The shortcut key for each action of the shell, each optional.
pub struct KeySettings {
    pub new_project: Option<String>,
    pub import: Option<String>,
    pub rename: Option<String>,
    pub remove: Option<String>,
    pub run: Option<String>,
    pub build: Option<String>,
    pub test: Option<String>,
    pub clean: Option<String>,
    pub stop: Option<String>,
    pub save: Option<String>,
    pub undo: Option<String>,
    pub redo: Option<String>,
    pub font_dec: Option<String>,
    pub font_inc: Option<String>,
    pub close: Option<String>,
}

/// The meaning of a [`KeySettings`] record.
pub struct KeySettingsModel {
    pub new_project: Option<Seq<char>>,
    pub import: Option<Seq<char>>,
    pub rename: Option<Seq<char>>,
    pub remove: Option<Seq<char>>,
    pub run: Option<Seq<char>>,
    pub build: Option<Seq<char>>,
    pub test: Option<Seq<char>>,
    pub clean: Option<Seq<char>>,
    pub stop: Option<Seq<char>>,
    pub save: Option<Seq<char>>,
    pub undo: Option<Seq<char>>,
    pub redo: Option<Seq<char>>,
    pub font_dec: Option<Seq<char>>,
    pub font_inc: Option<Seq<char>>,
    pub close: Option<Seq<char>>,
}

impl View for KeySettings {
    type V = KeySettingsModel;

    open spec fn view(&self) -> KeySettingsModel {
        KeySettingsModel {
            new_project: option_string_view(self.new_project),
            import: option_string_view(self.import),
            rename: option_string_view(self.rename),
            remove: option_string_view(self.remove),
            run: option_string_view(self.run),
            build: option_string_view(self.build),
            test: option_string_view(self.test),
            clean: option_string_view(self.clean),
            stop: option_string_view(self.stop),
            save: option_string_view(self.save),
            undo: option_string_view(self.undo),
            redo: option_string_view(self.redo),
            font_dec: option_string_view(self.font_dec),
            font_inc: option_string_view(self.font_inc),
            close: option_string_view(self.close),
        }
    }
}

/// The user-adjustable settings of the shell.
pub struct Settings {
    pub keys: KeySettings,
}

/// The meaning of a [`Settings`] record.
pub struct SettingsModel {
    pub keys: KeySettingsModel,
}

impl View for Settings {
    type V = SettingsModel;

    open spec fn view(&self) -> SettingsModel {
        SettingsModel { keys: self.keys@ }
    }
}

/// Returns the default settings: the shortcut assignment a fresh
/// installation writes out and a loaded record is completed from.
pub fn get_settings() -> (r: Settings)
    ensures
            r@.keys.new_project == Some("p"@),
            r@.keys.import == Some("i"@),
            r@.keys.rename == Some("n"@),
            r@.keys.remove == Some("g"@),
            r@.keys.run == Some("a"@),
            r@.keys.build == Some("k"@),
            r@.keys.test == Some("t"@),
            r@.keys.clean == Some("l"@),
            r@.keys.stop == Some("j"@),
            r@.keys.save == Some("s"@),
            r@.keys.undo == Some("z"@),
            r@.keys.redo == Some("r"@),
            r@.keys.font_dec == Some("minus"@),
            r@.keys.font_inc == Some("equal"@),
            r@.keys.close == Some("w"@),
{
    Settings {
        keys: KeySettings {
            new_project: Some(String::from_str("p")),
            import: Some(String::from_str("i")),
            rename: Some(String::from_str("n")),
            remove: Some(String::from_str("g")),
            run: Some(String::from_str("a")),
            build: Some(String::from_str("k")),
            test: Some(String::from_str("t")),
            clean: Some(String::from_str("l")),
            stop: Some(String::from_str("j")),
            save: Some(String::from_str("s")),
            undo: Some(String::from_str("z")),
            redo: Some(String::from_str("r")),
            font_dec: Some(String::from_str("minus")),
            font_inc: Some(String::from_str("equal")),
            close: Some(String::from_str("w")),
        },
    }
}

/// What one merged shortcut is: where the defaults assign a key, the
/// loaded entry wins when present and the default fills the gap; where
/// the defaults assign none, the loaded entry stands as it is.
pub open spec fn merged_key(loaded: Option<Seq<char>>, default: Option<Seq<char>>) -> Option<
    Seq<char>,
> {
    match default {
        Some(d) => match loaded {
            Some(l) => Some(l),
            None => Some(d),
        },
        None => loaded,
    }
}

/// Merges one loaded shortcut with its default.
fn merge_key(loaded: Option<String>, default: &Option<String>) -> (r: Option<String>)
    ensures
        option_string_view(r) == merged_key(option_string_view(loaded), option_string_view(
            *default,
        )),
{
    match default {
        Some(d) => match loaded {
            Some(l) => Some(l),
            None => Some(d.clone()),
        },
        None => loaded,
    }
}

/// Completes a loaded settings record from the defaults: every shortcut
/// the file left out falls back to the default assignment, and every
/// shortcut the file set is kept.
pub fn merge_settings(loaded: Settings, defaults: &Settings) -> (r: Settings)
    ensures
            r@.keys.new_project == merged_key(loaded@.keys.new_project, defaults@.keys.new_project),
            r@.keys.import == merged_key(loaded@.keys.import, defaults@.keys.import),
            r@.keys.rename == merged_key(loaded@.keys.rename, defaults@.keys.rename),
            r@.keys.remove == merged_key(loaded@.keys.remove, defaults@.keys.remove),
            r@.keys.run == merged_key(loaded@.keys.run, defaults@.keys.run),
            r@.keys.build == merged_key(loaded@.keys.build, defaults@.keys.build),
            r@.keys.test == merged_key(loaded@.keys.test, defaults@.keys.test),
            r@.keys.clean == merged_key(loaded@.keys.clean, defaults@.keys.clean),
            r@.keys.stop == merged_key(loaded@.keys.stop, defaults@.keys.stop),
            r@.keys.save == merged_key(loaded@.keys.save, defaults@.keys.save),
            r@.keys.undo == merged_key(loaded@.keys.undo, defaults@.keys.undo),
            r@.keys.redo == merged_key(loaded@.keys.redo, defaults@.keys.redo),
            r@.keys.font_dec == merged_key(loaded@.keys.font_dec, defaults@.keys.font_dec),
            r@.keys.font_inc == merged_key(loaded@.keys.font_inc, defaults@.keys.font_inc),
            r@.keys.close == merged_key(loaded@.keys.close, defaults@.keys.close),
{
    Settings {
        keys: KeySettings {
                new_project: merge_key(loaded.keys.new_project, &defaults.keys.new_project),
                import: merge_key(loaded.keys.import, &defaults.keys.import),
                rename: merge_key(loaded.keys.rename, &defaults.keys.rename),
                remove: merge_key(loaded.keys.remove, &defaults.keys.remove),
                run: merge_key(loaded.keys.run, &defaults.keys.run),
                build: merge_key(loaded.keys.build, &defaults.keys.build),
                test: merge_key(loaded.keys.test, &defaults.keys.test),
                clean: merge_key(loaded.keys.clean, &defaults.keys.clean),
                stop: merge_key(loaded.keys.stop, &defaults.keys.stop),
                save: merge_key(loaded.keys.save, &defaults.keys.save),
                undo: merge_key(loaded.keys.undo, &defaults.keys.undo),
                redo: merge_key(loaded.keys.redo, &defaults.keys.redo),
                font_dec: merge_key(loaded.keys.font_dec, &defaults.keys.font_dec),
                font_inc: merge_key(loaded.keys.font_inc, &defaults.keys.font_inc),
                close: merge_key(loaded.keys.close, &defaults.keys.close),
        },
    }
}

} // verus!
