use vstd::prelude::*;

verus! {

pub open spec fn control_text() -> Seq<char> {
    seq!['C', 'O', 'N', 'T', 'R', 'O', 'L']
}

pub open spec fn shift_text() -> Seq<char> {
    seq!['S', 'H', 'I', 'F', 'T']
}

pub open spec fn alt_text() -> Seq<char> {
    seq!['A', 'L', 'T']
}

pub open spec fn error_text() -> Seq<char> {
    seq!['E', 'R', 'R']
}

pub open spec fn alphabet() -> Seq<char> {
    seq![
        'A', 'B', 'C', 'D', 'E', 'F', 'G', 'H', 'I', 'J', 'K', 'L', 'M',
        'N', 'O', 'P', 'Q', 'R', 'S', 'T', 'U', 'V', 'W', 'X', 'Y', 'Z',
    ]
}

/// A modifier key of a shortcut.
#[derive(Clone, Copy, Debug, PartialEq, Eq, Structural)]
pub enum Modifier {
    Control,
    Shift,
    Alt,
}

/// A global shortcut: a modifier and a letter key, the key given by its
/// place in the alphabet (0 = A, ..., 25 = Z).
#[derive(Clone, Copy, Debug, PartialEq, Eq, Structural)]
pub struct Binding {
    pub modifier: Modifier,
    pub key: u32,
}

/// The position of a stored modifier name in the modifier list
/// (CONTROL, SHIFT, ALT); an unknown name counts as CONTROL.
pub open spec fn modifier_index_of(s: Seq<char>) -> u32 {
    if s == shift_text() {
        1
    } else if s == alt_text() {
        2
    } else {
        0
    }
}

/// The stored name of a modifier list position; unknown positions name CONTROL.
pub open spec fn modifier_text(index: u32) -> Seq<char> {
    if index == 1 {
        shift_text()
    } else if index == 2 {
        alt_text()
    } else {
        control_text()
    }
}

/// The position in the alphabet of a stored one-letter key name; anything
/// else counts as A.
pub open spec fn key_index_of(s: Seq<char>) -> u32 {
    if s.len() == 1 && 'A' <= s[0] <= 'Z' {
        (s[0] as u32 - 65) as u32
    } else {
        0
    }
}

/// The stored name of an alphabet position; positions past Z give "ERR".
pub open spec fn key_text(index: u32) -> Seq<char> {
    if index < 26 {
        seq![alphabet()[index as int]]
    } else {
        error_text()
    }
}

pub open spec fn modifier_of(s: Seq<char>) -> Modifier {
    if s == shift_text() {
        Modifier::Shift
    } else if s == alt_text() {
        Modifier::Alt
    } else {
        Modifier::Control
    }
}

/// The shortcut that a stored modifier and key name stand for.
pub open spec fn binding_of(modifier: Seq<char>, key: Seq<char>) -> Binding {
    Binding { modifier: modifier_of(modifier), key: key_index_of(key) }
}

/// No two of the five chosen (modifier, key) pairs are the same.
pub open spec fn all_distinct(choices: Seq<(u32, u32)>) -> bool {
    forall|i: int, j: int| 0 <= i < j < choices.len() ==> choices[i] != choices[j]
}

/// Whether two texts hold the same characters.
pub fn text_equals(s: &str, t: &str) -> (r: bool)
    ensures
        r == (s@ == t@),
{
    let n = s.unicode_len();
    if n != t.unicode_len() {
        return false;
    }
    let mut i: usize = 0;
    while i < n
        invariant
            n == s@.len(),
            n == t@.len(),
            i <= n,
            forall|k: int| 0 <= k < i ==> s@[k] == t@[k],
        decreases n - i,
    {
        if s.get_char(i) != t.get_char(i) {
            return false;
        }
        i = i + 1;
    }
    assert(s@ =~= t@);
    true
}

pub fn modifier_index(name: &str) -> (r: u32)
    ensures
        r == modifier_index_of(name@),
        r <= 2,
{
    proof {
        reveal_strlit("SHIFT");
        reveal_strlit("ALT");
        assert("SHIFT"@ =~= shift_text());
        assert("ALT"@ =~= alt_text());
    }
    if text_equals(name, "SHIFT") {
        1
    } else if text_equals(name, "ALT") {
        2
    } else {
        0
    }
}

pub fn modifier_name(index: u32) -> (r: String)
    ensures
        r@ == modifier_text(index),
{
    proof {
        reveal_strlit("CONTROL");
        reveal_strlit("SHIFT");
        reveal_strlit("ALT");
        assert("SHIFT"@ =~= shift_text());
        assert("ALT"@ =~= alt_text());
    }
    match index {
        1 => String::from_str("SHIFT"),
        2 => String::from_str("ALT"),
        _ => String::from_str("CONTROL"),
    }
}

pub fn key_index(name: &str) -> (r: u32)
    ensures
        r == key_index_of(name@),
        r < 26,
{
    if name.unicode_len() != 1 {
        return 0;
    }
    let c = name.get_char(0);
    if 'A' <= c && c <= 'Z' {
        (c as u32) - 65
    } else {
        0
    }
}

pub fn key_name(index: u32) -> (r: String)
    ensures
        r@ == key_text(index),
{
    let letters = "ABCDEFGHIJKLMNOPQRSTUVWXYZ";
    proof {
        reveal_strlit("ABCDEFGHIJKLMNOPQRSTUVWXYZ");
        reveal_strlit("ERR");
        assert(letters@ == alphabet());
    }
    if index < 26 {
        let one = letters.substring_ascii(index as usize, index as usize + 1);
        let r = String::from_str(one);
        assert(r@ =~= seq![alphabet()[index as int]]);
        r
    } else {
        String::from_str("ERR")
    }
}

/// The shortcut that a stored modifier and key name stand for.
pub fn parse_binding(modifier: &str, key: &str) -> (r: Binding)
    ensures
        r == binding_of(modifier@, key@),
{
    proof {
        reveal_strlit("SHIFT");
        reveal_strlit("ALT");
        assert("SHIFT"@ =~= shift_text());
        assert("ALT"@ =~= alt_text());
    }
    let m = if text_equals(modifier, "SHIFT") {
        Modifier::Shift
    } else if text_equals(modifier, "ALT") {
        Modifier::Alt
    } else {
        Modifier::Control
    };
    Binding { modifier: m, key: key_index(key) }
}

/// Whether the five chosen (modifier, key) pairs are pairwise different, as
/// the shortcut editor demands before it stores them.
pub fn choices_distinct(choices: &[(u32, u32); 5]) -> (r: bool)
    ensures
        r == all_distinct(choices@),
{
    let mut i: usize = 0;
    while i < 5
        invariant
            i <= 5,
            choices@.len() == 5,
            forall|a: int, b: int| 0 <= a < b < choices@.len() && a < i ==> choices@[a] != choices@[b],
        decreases 5 - i,
    {
        let mut j: usize = i + 1;
        while j < 5
            invariant
                i < 5,
                i + 1 <= j <= 5,
                choices@.len() == 5,
                forall|a: int, b: int| 0 <= a < b < choices@.len() && a < i ==> choices@[a] != choices@[b],
                forall|b: int| i < b < j ==> choices@[i as int] != choices@[b],
            decreases 5 - j,
        {
            if choices[i].0 == choices[j].0 && choices[i].1 == choices[j].1 {
                return false;
            }
            j = j + 1;
        }
        i = i + 1;
    }
    true
}

/// The shortcut settings: a modifier and a key name for each of the five
/// actions, and the folder offered first when exporting.
pub struct Settings {
    pub new_shortcut_modif: String,
    pub new_shortcut_key: String,
    pub save_shortcut_modif: String,
    pub save_shortcut_key: String,
    pub undo_shortcut_modif: String,
    pub undo_shortcut_key: String,
    pub redo_shortcut_modif: String,
    pub redo_shortcut_key: String,
    pub cancel_shortcut_modif: String,
    pub cancel_shortcut_key: String,
    pub default_location: String,
}

impl Settings {
    /// The settings used when the stored ones cannot be read: CONTROL with
    /// N, S, Z, Y and E for new, save, undo, redo and cancel, and "/." as the
    /// export folder.
    pub fn fallback() -> (r: Settings)
        ensures
            r.new_shortcut_modif@ == control_text(),
            r.new_shortcut_key@ == seq!['N'],
            r.save_shortcut_modif@ == control_text(),
            r.save_shortcut_key@ == seq!['S'],
            r.undo_shortcut_modif@ == control_text(),
            r.undo_shortcut_key@ == seq!['Z'],
            r.redo_shortcut_modif@ == control_text(),
            r.redo_shortcut_key@ == seq!['Y'],
            r.cancel_shortcut_modif@ == control_text(),
            r.cancel_shortcut_key@ == seq!['E'],
            r.default_location@ == seq!['/', '.'],
    {
        proof {
            reveal_strlit("CONTROL");
            reveal_strlit("N");
            reveal_strlit("S");
            reveal_strlit("Z");
            reveal_strlit("Y");
            reveal_strlit("E");
            reveal_strlit("/.");
        }
        Settings {
            new_shortcut_modif: String::from_str("CONTROL"),
            new_shortcut_key: String::from_str("N"),
            save_shortcut_modif: String::from_str("CONTROL"),
            save_shortcut_key: String::from_str("S"),
            undo_shortcut_modif: String::from_str("CONTROL"),
            undo_shortcut_key: String::from_str("Z"),
            redo_shortcut_modif: String::from_str("CONTROL"),
            redo_shortcut_key: String::from_str("Y"),
            cancel_shortcut_modif: String::from_str("CONTROL"),
            cancel_shortcut_key: String::from_str("E"),
            default_location: String::from_str("/."),
        }
    }

    /// Settings from the editor's five (modifier, key) list positions, in
    /// the order new, save, undo, redo, cancel, keeping `default_location`.
    pub fn from_choices(choices: &[(u32, u32); 5], default_location: String) -> (r: Settings)
        ensures
            r.new_shortcut_modif@ == modifier_text(choices@[0].0),
            r.new_shortcut_key@ == key_text(choices@[0].1),
            r.save_shortcut_modif@ == modifier_text(choices@[1].0),
            r.save_shortcut_key@ == key_text(choices@[1].1),
            r.undo_shortcut_modif@ == modifier_text(choices@[2].0),
            r.undo_shortcut_key@ == key_text(choices@[2].1),
            r.redo_shortcut_modif@ == modifier_text(choices@[3].0),
            r.redo_shortcut_key@ == key_text(choices@[3].1),
            r.cancel_shortcut_modif@ == modifier_text(choices@[4].0),
            r.cancel_shortcut_key@ == key_text(choices@[4].1),
            r.default_location@ == default_location@,
    {
        Settings {
            new_shortcut_modif: modifier_name(choices[0].0),
            new_shortcut_key: key_name(choices[0].1),
            save_shortcut_modif: modifier_name(choices[1].0),
            save_shortcut_key: key_name(choices[1].1),
            undo_shortcut_modif: modifier_name(choices[2].0),
            undo_shortcut_key: key_name(choices[2].1),
            redo_shortcut_modif: modifier_name(choices[3].0),
            redo_shortcut_key: key_name(choices[3].1),
            cancel_shortcut_modif: modifier_name(choices[4].0),
            cancel_shortcut_key: key_name(choices[4].1),
            default_location,
        }
    }

    /// The editor's list positions of the stored shortcuts, in the order new,
    /// save, undo, redo, cancel.
    pub fn choices(&self) -> (r: [(u32, u32); 5])
        ensures
            r@ == seq![
                (modifier_index_of(self.new_shortcut_modif@), key_index_of(self.new_shortcut_key@)),
                (modifier_index_of(self.save_shortcut_modif@), key_index_of(self.save_shortcut_key@)),
                (modifier_index_of(self.undo_shortcut_modif@), key_index_of(self.undo_shortcut_key@)),
                (modifier_index_of(self.redo_shortcut_modif@), key_index_of(self.redo_shortcut_key@)),
                (modifier_index_of(self.cancel_shortcut_modif@), key_index_of(self.cancel_shortcut_key@)),
            ],
    {
        let r = [
            (modifier_index(self.new_shortcut_modif.as_str()), key_index(self.new_shortcut_key.as_str())),
            (modifier_index(self.save_shortcut_modif.as_str()), key_index(self.save_shortcut_key.as_str())),
            (modifier_index(self.undo_shortcut_modif.as_str()), key_index(self.undo_shortcut_key.as_str())),
            (modifier_index(self.redo_shortcut_modif.as_str()), key_index(self.redo_shortcut_key.as_str())),
            (modifier_index(self.cancel_shortcut_modif.as_str()), key_index(self.cancel_shortcut_key.as_str())),
        ];
        assert(r@ =~= seq![
            (modifier_index_of(self.new_shortcut_modif@), key_index_of(self.new_shortcut_key@)),
            (modifier_index_of(self.save_shortcut_modif@), key_index_of(self.save_shortcut_key@)),
            (modifier_index_of(self.undo_shortcut_modif@), key_index_of(self.undo_shortcut_key@)),
            (modifier_index_of(self.redo_shortcut_modif@), key_index_of(self.redo_shortcut_key@)),
            (modifier_index_of(self.cancel_shortcut_modif@), key_index_of(self.cancel_shortcut_key@)),
        ]);
        r
    }

    /// The global shortcuts for new, save, undo, redo and cancel, in that order.
    pub fn bindings(&self) -> (r: [Binding; 5])
        ensures
            r@ == seq![
                binding_of(self.new_shortcut_modif@, self.new_shortcut_key@),
                binding_of(self.save_shortcut_modif@, self.save_shortcut_key@),
                binding_of(self.undo_shortcut_modif@, self.undo_shortcut_key@),
                binding_of(self.redo_shortcut_modif@, self.redo_shortcut_key@),
                binding_of(self.cancel_shortcut_modif@, self.cancel_shortcut_key@),
            ],
    {
        let r = [
            parse_binding(self.new_shortcut_modif.as_str(), self.new_shortcut_key.as_str()),
            parse_binding(self.save_shortcut_modif.as_str(), self.save_shortcut_key.as_str()),
            parse_binding(self.undo_shortcut_modif.as_str(), self.undo_shortcut_key.as_str()),
            parse_binding(self.redo_shortcut_modif.as_str(), self.redo_shortcut_key.as_str()),
            parse_binding(self.cancel_shortcut_modif.as_str(), self.cancel_shortcut_key.as_str()),
        ];
        assert(r@ =~= seq![
            binding_of(self.new_shortcut_modif@, self.new_shortcut_key@),
            binding_of(self.save_shortcut_modif@, self.save_shortcut_key@),
            binding_of(self.undo_shortcut_modif@, self.undo_shortcut_key@),
            binding_of(self.redo_shortcut_modif@, self.redo_shortcut_key@),
            binding_of(self.cancel_shortcut_modif@, self.cancel_shortcut_key@),
        ]);
        r
    }

    /// Whether an export folder is set.
    pub fn has_default_location(&self) -> (r: bool)
        ensures
            r == (self.default_location@.len() > 0),
    {
        !self.default_location.as_str().is_empty()
    }
}

/// A modifier list position, stored by name and read back, is the same
/// position.
pub proof fn lemma_modifier_round_trip(index: u32)
    requires
        index <= 2,
    ensures
        modifier_index_of(modifier_text(index)) == index,
{
    assert(control_text().len() != shift_text().len());
    assert(control_text().len() != alt_text().len());
    assert(shift_text().len() != alt_text().len());
}

/// A key position, stored by name and read back, is the same position.
pub proof fn lemma_key_round_trip(index: u32)
    requires
        index < 26,
    ensures
        key_index_of(key_text(index)) == index,
{
    let c = alphabet()[index as int];
    assert(c as u32 == 65 + index);
}

} // verus!
