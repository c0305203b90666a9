use vstd::prelude::*;
use crate::formatting::{format_ttl, ttl_text};
use crate::keyboard::KeyCode;
use crate::models::KeyInfo;
use crate::text::{chars_of, push_chars, push_str, string_from, text_lines};

verus! {

/// The key details panel: the key shown, if any, and whether the panel has the
/// focus.
pub struct KeyInfoView {
    pub key_info: Option<KeyInfo>,
    pub focused: bool,
}

/// The lines shown for `key`: its name, type and TTL, separated by empty lines.
pub open spec fn key_info_lines(key: KeyInfo) -> Seq<Seq<char>> {
    seq![
        "Key: "@ + key.name@,
        Seq::<char>::empty(),
        "Type: "@ + key.key_type@,
        Seq::<char>::empty(),
        "TTL: "@ + ttl_text(key.ttl),
    ]
}

impl KeyInfoView {
    pub fn new() -> (r: Self)
        ensures
            r.key_info is None,
            !r.focused,
    {
        KeyInfoView { key_info: None, focused: false }
    }

    pub fn set_focus(&mut self, focused: bool)
        ensures
            final(self).focused == focused,
            final(self).key_info == old(self).key_info,
    {
        self.focused = focused;
    }

    /// Keys change nothing here: the panel shows static information.
    pub fn handle_input(&mut self, key_code: KeyCode)
        ensures
            final(self).focused == old(self).focused,
            final(self).key_info == old(self).key_info,
    {
        match key_code {
            KeyCode::Char('j') | KeyCode::Down => {},
            KeyCode::Char('k') | KeyCode::Up => {},
            _ => {},
        }
    }

    pub fn set_key(&mut self, key: Option<KeyInfo>)
        ensures
            final(self).key_info == key,
            final(self).focused == old(self).focused,
    {
        self.key_info = key;
    }

    /// The panel title: marked with an arrow when focused.
    pub fn title(&self) -> (r: &'static str)
        ensures
            r@ == (if self.focused { "Key Info ◄"@ } else { "Key Info"@ }),
    {
        if self.focused {
            "Key Info ◄"
        } else {
            "Key Info"
        }
    }

    /// The panel's text: the key's name, type and TTL, or "No key selected".
    pub fn content(&self) -> (r: Vec<String>)
        ensures
            text_lines(r@) == (match self.key_info {
                Some(key) => key_info_lines(key),
                None => seq!["No key selected"@],
            }),
    {
        let mut r: Vec<String> = Vec::new();
        match &self.key_info {
            Some(key) => {
                let mut name = chars_of("Key: ");
                push_chars(&mut name, &chars_of(key.name.as_str()));
                r.push(string_from(&name));
                r.push(String::new());
                let mut kind = chars_of("Type: ");
                push_chars(&mut kind, &chars_of(key.key_type.as_str()));
                r.push(string_from(&kind));
                r.push(String::new());
                let mut ttl = chars_of("TTL: ");
                push_str(&mut ttl, format_ttl(key.ttl).as_str());
                r.push(string_from(&ttl));
                assert(text_lines(r@) =~= key_info_lines(*key));
            },
            None => {
                r.push(String::from_str("No key selected"));
                assert(text_lines(r@) =~= seq!["No key selected"@]);
            },
        }
        r
    }
}

impl Default for KeyInfoView {
    fn default() -> (r: Self)
        ensures
            r.key_info is None,
            !r.focused,
    {
        Self::new()
    }
}

} // verus!
