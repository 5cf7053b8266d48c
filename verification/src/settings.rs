//! The settings singleton slot.
//!
//! At most one live value at a time; saved wholesale, never merged; absent
//! until the first save, and a read before that returns "no value" rather
//! than an error.

use vstd::prelude::*;

use crate::records::AccessibilitySettings;

verus! {

/// The singleton slot holding the accessibility settings, or nothing.
pub struct SettingsSlot {
    value: Option<AccessibilitySettings>,
}

impl View for SettingsSlot {
    type V = Option<AccessibilitySettings>;

    closed spec fn view(&self) -> Option<AccessibilitySettings> {
        self.value
    }
}

impl SettingsSlot {
    /// The empty slot of a fresh namespace: no settings saved yet.
    pub fn new() -> (r: Self)
        ensures
            r@ == None::<AccessibilitySettings>,
    {
        SettingsSlot { value: None }
    }

    /// The slot as decoded from a stored document; an absent or malformed
    /// document (`None`) reads as "no value", never as an error.
    pub fn from_doc(doc: Option<AccessibilitySettings>) -> (r: Self)
        ensures
            r@ == doc,
    {
        SettingsSlot { value: doc }
    }

    /// The current settings, or `None` when none were ever saved.
    pub fn get(&self) -> (r: Option<AccessibilitySettings>)
        ensures
            r == self@,
    {
        match &self.value {
            Some(s) => Some(s.clone()),
            None => None,
        }
    }

    /// Overwrites the slot in full; the entire previous value is discarded.
    pub fn set(&mut self, settings: AccessibilitySettings)
        ensures
            final(self)@ == Some(settings),
    {
        self.value = Some(settings);
    }

    /// The slot's value for the host to encode and persist.
    pub fn to_doc(&self) -> (r: Option<AccessibilitySettings>)
        ensures
            r == self@,
    {
        self.get()
    }
}

} // verus!
