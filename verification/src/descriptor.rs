//! Font descriptors: the attributes that describe a font, and the string
//! values that can be read from them.
#![allow(non_upper_case_globals)]

use vstd::prelude::*;
use vstd::string::*;

verus! {

/// The format of a font file, as given by the format attribute.
pub type CTFontFormat = u32;

pub const kCTFontFormatUnrecognized: CTFontFormat = 0;
pub const kCTFontFormatOpenTypePostScript: CTFontFormat = 1;
pub const kCTFontFormatOpenTypeTrueType: CTFontFormat = 2;
pub const kCTFontFormatTrueType: CTFontFormat = 3;
pub const kCTFontFormatPostScript: CTFontFormat = 4;
pub const kCTFontFormatBitmap: CTFontFormat = 5;

/// The orientation of a font, as given by the orientation attribute.
pub type CTFontOrientation = u32;

pub const kCTFontDefaultOrientation: CTFontOrientation = 0;
pub const kCTFontHorizontalOrientation: CTFontOrientation = 1;
pub const kCTFontVerticalOrientation: CTFontOrientation = 2;

/// The priority of a font's registration scope, as given by the priority attribute.
pub type CTFontPriority = u32;

pub const kCTFontPrioritySystem: CTFontPriority = 10000;
pub const kCTFontPriorityNetwork: CTFontPriority = 20000;
pub const kCTFontPriorityComputer: CTFontPriority = 30000;
pub const kCTFontPriorityUser: CTFontPriority = 40000;
pub const kCTFontPriorityDynamic: CTFontPriority = 50000;
pub const kCTFontPriorityProcess: CTFontPriority = 60000;

/// The attributes that a font descriptor may carry, one per attribute key.
#[derive(Clone, Copy, Debug, PartialEq, Eq, Structural)]
pub enum FontAttribute {
    Url,
    Name,
    DisplayName,
    FamilyName,
    StyleName,
    Traits,
    Variation,
    Size,
    Matrix,
    CascadeList,
    CharacterSet,
    Languages,
    BaselineAdjust,
    MacintoshEncodings,
    Features,
    FeatureSettings,
    FixedAdvance,
    Orientation,
    Format,
    RegistrationScope,
    Priority,
    Enabled,
}

/// A font descriptor, seen through the string values of its attributes.
///
/// Attributes are recorded in the order they were set; a later setting of an
/// attribute replaces an earlier one.
pub struct FontDescriptor {
    entries: Vec<(FontAttribute, String)>,
}

/// The attribute map described by a list of settings, later settings winning.
pub open spec fn attribute_map(entries: Seq<(FontAttribute, String)>) -> Map<FontAttribute, Seq<char>>
    decreases entries.len(),
{
    if entries.len() == 0 {
        Map::empty()
    } else {
        attribute_map(entries.drop_last()).insert(entries.last().0, entries.last().1@)
    }
}

impl View for FontDescriptor {
    type V = Map<FontAttribute, Seq<char>>;

    closed spec fn view(&self) -> Map<FontAttribute, Seq<char>> {
        attribute_map(self.entries@)
    }
}

impl FontDescriptor {
    /// A descriptor with no attributes.
    pub fn new() -> (r: FontDescriptor)
        ensures
            r@ == Map::<FontAttribute, Seq<char>>::empty(),
    {
        FontDescriptor { entries: Vec::new() }
    }

    /// Sets `attribute` to `value`, replacing any earlier value.
    pub fn set_attribute(&mut self, attribute: FontAttribute, value: String)
        ensures
            final(self)@ == old(self)@.insert(attribute, value@),
    {
        let ghost before = self.entries@;
        self.entries.push((attribute, value));
        assert(self.entries@.drop_last() =~= before);
    }

    /// The value of `attribute`, if the descriptor carries it.
    pub fn get_string_attribute(&self, attribute: FontAttribute) -> (r: Option<String>)
        ensures
            r is Some <==> self@.contains_key(attribute),
            r matches Some(v) ==> v@ == self@[attribute],
    {
        let n = self.entries.len();
        let mut i: usize = n;
        assert(self.entries@.take(n as int) =~= self.entries@);
        while i > 0
            invariant
                i <= n,
                n == self.entries@.len(),
                attribute_map(self.entries@).contains_key(attribute) == attribute_map(
                    self.entries@.take(i as int),
                ).contains_key(attribute),
                attribute_map(self.entries@)[attribute] == attribute_map(
                    self.entries@.take(i as int),
                )[attribute],
            decreases i,
        {
            i = i - 1;
            assert(self.entries@.take(i + 1).drop_last() =~= self.entries@.take(i as int));
            if self.entries[i].0 == attribute {
                return Some(self.entries[i].1.clone());
            }
        }
        None
    }
}

/// The string-valued attributes of a font descriptor, and its file path.
pub trait CTFontDescriptorMethods {
    /// The value of `attribute`, where the descriptor carries one.
    spec fn attribute_value(&self, attribute: FontAttribute) -> Option<Seq<char>>;

    /// The family name, read from the display-name attribute.
    fn family_name(&self) -> (r: String)
        requires
            self.attribute_value(FontAttribute::DisplayName) is Some,
        ensures
            r@ == self.attribute_value(FontAttribute::DisplayName)->0,
    ;

    fn font_name(&self) -> (r: String)
        requires
            self.attribute_value(FontAttribute::Name) is Some,
        ensures
            r@ == self.attribute_value(FontAttribute::Name)->0,
    ;

    fn style_name(&self) -> (r: String)
        requires
            self.attribute_value(FontAttribute::StyleName) is Some,
        ensures
            r@ == self.attribute_value(FontAttribute::StyleName)->0,
    ;

    fn display_name(&self) -> (r: String)
        requires
            self.attribute_value(FontAttribute::DisplayName) is Some,
        ensures
            r@ == self.attribute_value(FontAttribute::DisplayName)->0,
    ;

    /// The path of the font file, read from the URL attribute.
    fn font_path(&self) -> (r: String)
        requires
            self.attribute_value(FontAttribute::Url) is Some,
        ensures
            r@ == self.attribute_value(FontAttribute::Url)->0,
    ;
}

impl CTFontDescriptorMethods for FontDescriptor {
    open spec fn attribute_value(&self, attribute: FontAttribute) -> Option<Seq<char>> {
        if self@.contains_key(attribute) {
            Some(self@[attribute])
        } else {
            None
        }
    }

    fn family_name(&self) -> (r: String)
        ensures
            r@ == self@[FontAttribute::DisplayName],
    {
        let value = self.get_string_attribute(FontAttribute::DisplayName);
        value.expect("A font must have a non-null font family name.")
    }

    fn font_name(&self) -> (r: String)
        ensures
            r@ == self@[FontAttribute::Name],
    {
        let value = self.get_string_attribute(FontAttribute::Name);
        value.expect("A font must have a non-null name.")
    }

    fn style_name(&self) -> (r: String)
        ensures
            r@ == self@[FontAttribute::StyleName],
    {
        let value = self.get_string_attribute(FontAttribute::StyleName);
        value.expect("A font must have a non-null style name.")
    }

    fn display_name(&self) -> (r: String)
        ensures
            r@ == self@[FontAttribute::DisplayName],
    {
        let value = self.get_string_attribute(FontAttribute::DisplayName);
        value.expect("A font must have a non-null display name.")
    }

    fn font_path(&self) -> (r: String)
        ensures
            r@ == self@[FontAttribute::Url],
    {
        let value = self.get_string_attribute(FontAttribute::Url);
        value.expect("A font must have a non-null URL.")
    }
}

/// `label`, a colon and a space, then `value`.
pub open spec fn labelled(label: Seq<char>, value: Seq<char>) -> Seq<char> {
    label + ": "@ + value
}

/// The lines that describe a descriptor for debugging: its family name, name,
/// style name, display name and path, each after its label.
pub fn debug_descriptor_lines(desc: &FontDescriptor) -> (lines: Vec<String>)
    requires
        desc@.contains_key(FontAttribute::DisplayName),
        desc@.contains_key(FontAttribute::Name),
        desc@.contains_key(FontAttribute::StyleName),
        desc@.contains_key(FontAttribute::Url),
    ensures
        lines@.len() == 5,
        lines@[0]@ == labelled("family"@, desc@[FontAttribute::DisplayName]),
        lines@[1]@ == labelled("name"@, desc@[FontAttribute::Name]),
        lines@[2]@ == labelled("style"@, desc@[FontAttribute::StyleName]),
        lines@[3]@ == labelled("display"@, desc@[FontAttribute::DisplayName]),
        lines@[4]@ == labelled("path"@, desc@[FontAttribute::Url]),
        lines@[0]@ == "family"@ + ": "@ + desc@[FontAttribute::DisplayName],
        lines@[1]@ == "name"@ + ": "@ + desc@[FontAttribute::Name],
        lines@[2]@ == "style"@ + ": "@ + desc@[FontAttribute::StyleName],
        lines@[3]@ == "display"@ + ": "@ + desc@[FontAttribute::DisplayName],
        lines@[4]@ == "path"@ + ": "@ + desc@[FontAttribute::Url],
{
    let mut lines: Vec<String> = Vec::new();
    lines.push(labelled_line("family", desc.family_name().as_str()));
    lines.push(labelled_line("name", desc.font_name().as_str()));
    lines.push(labelled_line("style", desc.style_name().as_str()));
    lines.push(labelled_line("display", desc.display_name().as_str()));
    lines.push(labelled_line("path", desc.font_path().as_str()));
    lines
}

fn labelled_line(label: &str, value: &str) -> (r: String)
    ensures
        r@ == labelled(label@, value@),
        r@ == label@ + ": "@ + value@,
        r@.len() == label@.len() + 2 + value@.len(),
{
    let line = String::from_str(label).concat(": ").concat(value);
    assert(line@ =~= labelled(label@, value@));
    proof {
        reveal_strlit(": ");
    }
    line
}

/// A labelled line is the whole label, then a colon and a space, then the
/// whole value: its length is the sum of theirs plus two, it starts with the
/// label and it ends with the value, nothing cut.
pub proof fn lemma_labelled_keeps_label_and_value(label: Seq<char>, value: Seq<char>)
    ensures
        labelled(label, value).len() == label.len() + 2 + value.len(),
        labelled(label, value).take(label.len() as int) == label,
        labelled(label, value)[label.len() as int] == ':',
        labelled(label, value)[label.len() + 1int] == ' ',
        labelled(label, value).skip(label.len() + 2int) == value,
{
    reveal_strlit(": ");
    let l = labelled(label, value);
    assert(l.take(label.len() as int) =~= label);
    assert(l.skip(label.len() + 2int) =~= value);
}

/// What a descriptor answers for an attribute is the value its view holds:
/// the value last set for that attribute, and nothing where none was set.
pub proof fn lemma_attribute_value_reads_view(d: FontDescriptor, attribute: FontAttribute)
    ensures
        d@.contains_key(attribute) ==> d.attribute_value(attribute) == Some(d@[attribute]),
        !d@.contains_key(attribute) ==> d.attribute_value(attribute) is None,
{
}

/// Reading an attribute gives back what was last written to it, whatever the
/// other attributes hold, and writing one attribute leaves every other one as
/// it was: `after` is `before` with `attribute` set to `value`.
pub proof fn lemma_read_after_write(
    before: FontDescriptor,
    after: FontDescriptor,
    attribute: FontAttribute,
    value: Seq<char>,
    other: FontAttribute,
)
    requires
        after@ == before@.insert(attribute, value),
    ensures
        after.attribute_value(attribute) == Some(value),
        other != attribute ==> after.attribute_value(other) == before.attribute_value(other),
{
}

} // verus!
