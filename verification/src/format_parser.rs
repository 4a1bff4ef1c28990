//! Reads the descriptions of image formats in the formats section of the Vulkan registry, and
//! writes out the enums that those descriptions use.

use crate::string_handler::push_char;
use crate::xml_parser::parser::attributes_view;
use crate::xml_parser::tokeniser::text_to_chars;
use vstd::prelude::*;
use vstd::string::StringExecFns;

verus! {

/// Writes out the Rust text of a generated type.
pub trait Generator {
    /// The Rust text that declares the type.
    fn generate_text() -> String;
}

/// The class of the image format.
/// Similar formats may share a class.
#[non_exhaustive]
#[derive(Debug, Copy, Clone, PartialEq, Eq, Structural)]
pub enum ImageFormatClass {
    TestElement,
}

/// The compression scheme used in the format.
#[non_exhaustive]
#[derive(Debug, Copy, Clone, PartialEq, Eq, Structural)]
pub enum ImageFormatCompressionScheme {
    TestElement,
}

/// The class written as `value` in the registry, or the message saying it is not one.
pub open spec fn class_from(value: Seq<char>) -> Result<ImageFormatClass, Seq<char>> {
    if value == "test"@ {
        Ok(ImageFormatClass::TestElement)
    } else {
        Err("invalid ImageFormatClassvalue: "@ + value)
    }
}

/// The compression scheme written as `value` in the registry, or the message saying it is not
/// one.
pub open spec fn compression_from(value: Seq<char>) -> Result<
    ImageFormatCompressionScheme,
    Seq<char>,
> {
    if value == "test"@ {
        Ok(ImageFormatCompressionScheme::TestElement)
    } else {
        Err("invalid ImageFormatCompressionSchemevalue: "@ + value)
    }
}

/// A result whose error message is taken by its characters.
pub open spec fn message_view<T>(r: Result<T, String>) -> Result<T, Seq<char>> {
    match r {
        Ok(v) => Ok(v),
        Err(m) => Err(m@),
    }
}

/// Whether two texts are the same.
fn same_text(a: &str, b: &str) -> (r: bool)
    ensures
        r == (a@ == b@),
{
    let a = a.to_owned();
    let b = b.to_owned();
    a == b
}

impl ImageFormatClass {
    /// Reads a class as the registry writes it.
    pub fn try_from(value: &str) -> (r: Result<Self, String>)
        ensures
            message_view(r) == class_from(value@),
    {
        proof {
            reveal_strlit("test");
            reveal_strlit("invalid ImageFormatClassvalue: ");
        }
        if same_text(value, "test") {
            Ok(ImageFormatClass::TestElement)
        } else {
            Err("invalid ImageFormatClassvalue: ".to_owned().concat(value))
        }
    }
}

impl ImageFormatCompressionScheme {
    /// Reads a compression scheme as the registry writes it.
    pub fn try_from(value: &str) -> (r: Result<Self, String>)
        ensures
            message_view(r) == compression_from(value@),
    {
        proof {
            reveal_strlit("test");
            reveal_strlit("invalid ImageFormatCompressionSchemevalue: ");
        }
        if same_text(value, "test") {
            Ok(ImageFormatCompressionScheme::TestElement)
        } else {
            Err("invalid ImageFormatCompressionSchemevalue: ".to_owned().concat(value))
        }
    }
}

/// The Rust text declaring an enum with the given attribute lines, name and element lines: the
/// attributes, the header, the elements each followed by a comma on lines of their own, and the
/// closing brace on a line of its own.
pub open spec fn enum_text(attributes: Seq<char>, name: Seq<char>, elements: Seq<char>) -> Seq<
    char,
> {
    attributes + "\npub enum "@ + name + " {\n"@ + elements + ",\n}\n"@
}

/// The attributes written above the class enum.
pub open spec fn class_attributes() -> Seq<char> {
    "/// The class of the image format.\n/// Similar formats may share a class.\n#[non_exhaustive]\n#[derive(Debug, Copy, Clone, PartialEq, Eq)]"@
}

/// The attributes written above the compression scheme enum.
pub open spec fn compression_attributes() -> Seq<char> {
    "/// The compression scheme used in the format.\n#[non_exhaustive]\n#[derive(Debug, Copy, Clone, PartialEq, Eq)]"@
}

impl Generator for ImageFormatClass {
    /// The declaration of the class enum. Each element line holds the enum's own name.
    fn generate_text() -> (text: String)
        ensures
            text@ == enum_text(class_attributes(), "ImageFormatClass"@, "\tImageFormatClass"@),
    {
        let attributes = "/// The class of the image format.\n/// Similar formats may share a class.\n#[non_exhaustive]\n#[derive(Debug, Copy, Clone, PartialEq, Eq)]";
        let text = attributes.to_owned().concat("\npub enum ").concat("ImageFormatClass").concat(
            " {\n",
        ).concat("\tImageFormatClass").concat(",\n}\n");
        text
    }
}

impl Generator for ImageFormatCompressionScheme {
    /// The declaration of the compression scheme enum. Each element line holds the enum's own
    /// name.
    fn generate_text() -> (text: String)
        ensures
            text@ == enum_text(
                compression_attributes(),
                "ImageFormatCompressionScheme"@,
                "\tImageFormatCompressionScheme"@,
            ),
    {
        let attributes = "/// The compression scheme used in the format.\n#[non_exhaustive]\n#[derive(Debug, Copy, Clone, PartialEq, Eq)]";
        let text = attributes.to_owned().concat("\npub enum ").concat(
            "ImageFormatCompressionScheme",
        ).concat(" {\n").concat("\tImageFormatCompressionScheme").concat(",\n}\n");
        text
    }
}

/// The parts of a text between its commas, in order: one more part than there are commas.
pub open spec fn comma_parts(s: Seq<char>) -> Seq<Seq<char>>
    decreases s.len(),
{
    if s.len() == 0 {
        seq![Seq::empty()]
    } else {
        let earlier = comma_parts(s.drop_last());
        if s.last() == ',' {
            earlier.push(Seq::empty())
        } else {
            earlier.update(earlier.len() - 1, earlier.last().push(s.last()))
        }
    }
}

proof fn lemma_comma_parts_not_empty(s: Seq<char>)
    ensures
        comma_parts(s).len() >= 1,
    decreases s.len(),
{
    if s.len() > 0 {
        lemma_comma_parts_not_empty(s.drop_last());
    }
}

/// The parts joined back together, with a comma between each two.
pub open spec fn join_with_commas(parts: Seq<Seq<char>>) -> Seq<char>
    decreases parts.len(),
{
    if parts.len() <= 1 {
        if parts.len() == 1 {
            parts[0]
        } else {
            Seq::empty()
        }
    } else {
        join_with_commas(parts.drop_last()) + seq![','] + parts.last()
    }
}

proof fn lemma_join_update_last(parts: Seq<Seq<char>>, c: char)
    requires
        parts.len() >= 1,
    ensures
        join_with_commas(parts.update(parts.len() - 1, parts.last().push(c))) == join_with_commas(
            parts,
        ).push(c),
{
    let updated = parts.update(parts.len() - 1, parts.last().push(c));
    if parts.len() > 1 {
        assert(updated.drop_last() == parts.drop_last());
    }
}

/// Splitting a text at its commas and joining the parts with commas gives back the text.
pub proof fn law_comma_parts_give_back_text(s: Seq<char>)
    ensures
        join_with_commas(comma_parts(s)) == s,
    decreases s.len(),
{
    if s.len() > 0 {
        law_comma_parts_give_back_text(s.drop_last());
        lemma_comma_parts_not_empty(s.drop_last());
        let earlier = comma_parts(s.drop_last());
        if s.last() == ',' {
            assert(earlier.push(Seq::empty()).drop_last() == earlier);
            assert(join_with_commas(earlier.push(Seq::empty())) == s.drop_last() + seq![','] + Seq::<char>::empty());
        } else {
            lemma_join_update_last(earlier, s.last());
        }
        assert(s.drop_last().push(s.last()) == s);
    }
}

proof fn lemma_comma_parts_join(x: Seq<char>, y: Seq<char>)
    ensures
        comma_parts(x + seq![','] + y) == comma_parts(x) + comma_parts(y),
    decreases y.len(),
{
    let z = x + seq![','] + y;
    if y.len() == 0 {
        assert(z.drop_last() == x);
        assert(comma_parts(y) == seq![Seq::<char>::empty()]);
        assert(comma_parts(x).push(Seq::empty()) =~= comma_parts(x) + comma_parts(y));
    } else {
        let y0 = y.drop_last();
        assert(z.drop_last() == x + seq![','] + y0);
        assert(z.last() == y.last());
        lemma_comma_parts_join(x, y0);
        lemma_comma_parts_not_empty(y0);
        let px = comma_parts(x);
        let py0 = comma_parts(y0);
        if y.last() == ',' {
            assert((px + py0).push(Seq::empty()) =~= px + py0.push(Seq::empty()));
        } else {
            let joined = px + py0;
            assert(joined.update(joined.len() - 1, joined.last().push(y.last())) =~= px
                + py0.update(py0.len() - 1, py0.last().push(y.last())));
        }
    }
}

proof fn lemma_comma_parts_of_part(s: Seq<char>)
    requires
        !s.contains(','),
    ensures
        comma_parts(s) == seq![s],
    decreases s.len(),
{
    if s.len() > 0 {
        let s0 = s.drop_last();
        assert(!s0.contains(',')) by {
            if s0.contains(',') {
                let j = choose|j: int| 0 <= j < s0.len() && s0[j] == ',';
                assert(s[j] == ',');
            }
        }
        lemma_comma_parts_of_part(s0);
        assert(s.last() != ',') by {
            assert(s[s.len() - 1] == s.last());
        }
        assert(s0.push(s.last()) =~= s);
        assert(seq![s0].update(0, s0.push(s.last())) =~= seq![s]);
    } else {
        assert(s =~= Seq::<char>::empty());
    }
}

/// Three values without commas, written with a comma between each two, are read back as those
/// three values.
pub proof fn law_block_extent_parts_of_values(a: Seq<char>, b: Seq<char>, c: Seq<char>)
    requires
        !a.contains(','),
        !b.contains(','),
        !c.contains(','),
    ensures
        comma_parts(a + seq![','] + b + seq![','] + c).len() == 3,
        block_extent_parts(a + seq![','] + b + seq![','] + c) == (a, b, c),
{
    let ab = a + seq![','] + b;
    lemma_comma_parts_join(a, b);
    lemma_comma_parts_join(ab, c);
    lemma_comma_parts_of_part(a);
    lemma_comma_parts_of_part(b);
    lemma_comma_parts_of_part(c);
    assert(comma_parts(ab + seq![','] + c) =~= seq![a, b, c]);
}

/// The three parts of a block extent written as three comma-separated values.
pub open spec fn block_extent_parts(s: Seq<char>) -> (Seq<char>, Seq<char>, Seq<char>) {
    (comma_parts(s)[0], comma_parts(s)[1], comma_parts(s)[2])
}

/// Reads a block extent: three values separated by commas.
pub fn to_block_extent(txt: String) -> (r: (String, String, String))
    requires
        comma_parts(txt@).len() == 3,
    ensures
        (r.0@, r.1@, r.2@) == block_extent_parts(txt@),
{
    let chars = text_to_chars(txt.as_str());
    let mut done: Vec<String> = Vec::new();
    let mut current = String::new();
    let mut i: usize = 0;
    while i < chars.len()
        invariant
            i <= chars@.len(),
            chars@ == txt@,
            done.deep_view().push(current@) == comma_parts(chars@.take(i as int)),
        decreases chars@.len() - i,
    {
        let ghost before = done.deep_view().push(current@);
        assert(chars@.take(i + 1).drop_last() == chars@.take(i as int));
        if chars[i] == ',' {
            done.push(current);
            current = String::new();
            assert(done.deep_view().push(current@) =~= before.push(Seq::empty()));
        } else {
            push_char(&mut current, chars[i]);
            assert(done.deep_view().push(current@) =~= before.update(
                before.len() - 1,
                before.last().push(chars@[i as int]),
            ));
        }
        i = i + 1;
    }
    assert(chars@.take(chars@.len() as int) == chars@);
    assert(done.deep_view().len() == 2);
    let first = done[0].clone();
    let second = done[1].clone();
    assert(done.deep_view()[0] == done@[0]@);
    assert(done.deep_view()[1] == done@[1]@);
    (first, second, current)
}

/// What a format's element says about it in its attributes.
#[derive(Debug, Eq, PartialEq)]
pub struct FormatAttributeInfo {
    pub name: String,
    pub class: ImageFormatClass,
    pub block_size: String,
    pub texels_per_block: String,
    pub block_extent: (String, String, String),
    pub packed: Option<String>,
    pub compressed: Option<ImageFormatCompressionScheme>,
}

/// The mathematical value of a [`FormatAttributeInfo`].
pub struct SpecFormatAttributeInfo {
    pub name: Seq<char>,
    pub class: ImageFormatClass,
    pub block_size: Seq<char>,
    pub texels_per_block: Seq<char>,
    pub block_extent: (Seq<char>, Seq<char>, Seq<char>),
    pub packed: Option<Seq<char>>,
    pub compressed: Option<ImageFormatCompressionScheme>,
}

impl View for FormatAttributeInfo {
    type V = SpecFormatAttributeInfo;

    open spec fn view(&self) -> SpecFormatAttributeInfo {
        SpecFormatAttributeInfo {
            name: self.name@,
            class: self.class,
            block_size: self.block_size@,
            texels_per_block: self.texels_per_block@,
            block_extent: (self.block_extent.0@, self.block_extent.1@, self.block_extent.2@),
            packed: match self.packed {
                Some(p) => Some(p@),
                None => None,
            },
            compressed: self.compressed,
        }
    }
}

impl Clone for FormatAttributeInfo {
    fn clone(&self) -> (c: Self)
        ensures
            c@ == self@,
    {
        FormatAttributeInfo {
            name: self.name.clone(),
            class: self.class,
            block_size: self.block_size.clone(),
            texels_per_block: self.texels_per_block.clone(),
            block_extent: (
                self.block_extent.0.clone(),
                self.block_extent.1.clone(),
                self.block_extent.2.clone(),
            ),
            packed: match &self.packed {
                Some(p) => Some(p.clone()),
                None => None,
            },
            compressed: self.compressed,
        }
    }
}

/// The value of the last attribute named `key`, if there is one.
pub open spec fn last_value(attributes: Seq<(Seq<char>, Seq<char>)>, key: Seq<char>) -> Option<
    Seq<char>,
>
    decreases attributes.len(),
{
    if attributes.len() == 0 {
        None
    } else if attributes.last().0 == key {
        Some(attributes.last().1)
    } else {
        last_value(attributes.drop_last(), key)
    }
}

/// Whether an attribute of a format element can be read: its name is one a format element has,
/// and a class, compression scheme or block extent is written in a form that is understood.
pub open spec fn attribute_readable(attribute: (Seq<char>, Seq<char>)) -> bool {
    let (key, value) = attribute;
    ||| key == "name"@
    ||| key == "class"@ && class_from(value) is Ok
    ||| key == "blockSize"@
    ||| key == "texels_per_block"@
    ||| key == "block_extent"@ && comma_parts(value).len() == 3
    ||| key == "packed"@
    ||| key == "compressed"@ && compression_from(value) is Ok
}

/// Whether the attributes of a format element can be read: each one can, and the name, class,
/// block size and texels per block are all given.
pub open spec fn format_attributes_readable(attributes: Seq<(Seq<char>, Seq<char>)>) -> bool {
    &&& forall|i: int| 0 <= i < attributes.len() ==> attribute_readable(#[trigger] attributes[i])
    &&& last_value(attributes, "name"@) is Some
    &&& last_value(attributes, "class"@) is Some
    &&& last_value(attributes, "blockSize"@) is Some
    &&& last_value(attributes, "texels_per_block"@) is Some
}

/// What the attributes of a format element say: each value is the one given last, the block
/// extent is one by one by one unless given, and the packing and compression are only there
/// when given.
pub open spec fn format_attribute_info(attributes: Seq<(Seq<char>, Seq<char>)>) -> SpecFormatAttributeInfo {
    SpecFormatAttributeInfo {
        name: last_value(attributes, "name"@)->0,
        class: class_from(last_value(attributes, "class"@)->0)->Ok_0,
        block_size: last_value(attributes, "blockSize"@)->0,
        texels_per_block: last_value(attributes, "texels_per_block"@)->0,
        block_extent: match last_value(attributes, "block_extent"@) {
            Some(v) => block_extent_parts(v),
            None => ("1"@, "1"@, "1"@),
        },
        packed: last_value(attributes, "packed"@),
        compressed: match last_value(attributes, "compressed"@) {
            Some(v) => Some(compression_from(v)->Ok_0),
            None => None,
        },
    }
}

/// Reads the attributes of a format element.
pub fn get_format_attribute_info(attributes: Vec<(String, String)>) -> (info: FormatAttributeInfo)
    requires
        format_attributes_readable(attributes_view(attributes)),
    ensures
        info@ == format_attribute_info(attributes_view(attributes)),
{
    let ghost all = attributes_view(attributes);
    let mut name: Option<String> = None;
    let mut class: Option<ImageFormatClass> = None;
    let mut block_size: Option<String> = None;
    let mut texels_per_block: Option<String> = None;
    let one = "1";
    let mut block_extent = (one.to_owned(), one.to_owned(), one.to_owned());
    let mut packed: Option<String> = None;
    let mut compressed: Option<ImageFormatCompressionScheme> = None;
    proof {
        reveal_strlit("name");
        reveal_strlit("class");
        reveal_strlit("blockSize");
        reveal_strlit("texels_per_block");
        reveal_strlit("block_extent");
        reveal_strlit("packed");
        reveal_strlit("compressed");
    }
    let key_name = "name".to_owned();
    let key_class = "class".to_owned();
    let key_block_size = "blockSize".to_owned();
    let key_texels = "texels_per_block".to_owned();
    let key_extent = "block_extent".to_owned();
    let key_packed = "packed".to_owned();
    let key_compressed = "compressed".to_owned();
    let mut i: usize = 0;
    while i < attributes.len()
        invariant
            i <= attributes@.len(),
            all == attributes_view(attributes),
            format_attributes_readable(all),
            key_name@ == "name"@,
            key_class@ == "class"@,
            key_block_size@ == "blockSize"@,
            key_texels@ == "texels_per_block"@,
            key_extent@ == "block_extent"@,
            key_packed@ == "packed"@,
            key_compressed@ == "compressed"@,
            match name {
                Some(v) => last_value(all.take(i as int), "name"@) == Some(v@),
                None => last_value(all.take(i as int), "name"@) is None,
            },
            match class {
                Some(c) => last_value(all.take(i as int), "class"@) matches Some(v) && class_from(v)
                    == Ok::<ImageFormatClass, Seq<char>>(c),
                None => last_value(all.take(i as int), "class"@) is None,
            },
            match block_size {
                Some(v) => last_value(all.take(i as int), "blockSize"@) == Some(v@),
                None => last_value(all.take(i as int), "blockSize"@) is None,
            },
            match texels_per_block {
                Some(v) => last_value(all.take(i as int), "texels_per_block"@) == Some(v@),
                None => last_value(all.take(i as int), "texels_per_block"@) is None,
            },
            (block_extent.0@, block_extent.1@, block_extent.2@) == match last_value(
                all.take(i as int),
                "block_extent"@,
            ) {
                Some(v) => block_extent_parts(v),
                None => ("1"@, "1"@, "1"@),
            },
            packed_view(packed) == last_value(all.take(i as int), "packed"@),
            match compressed {
                Some(c) => last_value(all.take(i as int), "compressed"@) matches Some(v)
                    && compression_from(v) == Ok::<ImageFormatCompressionScheme, Seq<char>>(c),
                None => last_value(all.take(i as int), "compressed"@) is None,
            },
        decreases attributes@.len() - i,
    {
        proof {
            reveal_strlit("name");
            reveal_strlit("class");
            reveal_strlit("blockSize");
            reveal_strlit("texels_per_block");
            reveal_strlit("block_extent");
            reveal_strlit("packed");
            reveal_strlit("compressed");
            assert("name"@.len() == 4);
            assert("class"@.len() == 5);
            assert("blockSize"@.len() == 9);
            assert("texels_per_block"@.len() == 16);
            assert("block_extent"@.len() == 12);
            assert("packed"@.len() == 6);
            assert("compressed"@.len() == 10);
        }
        let key = &attributes[i].0;
        let value = &attributes[i].1;
        assert(all[i as int] == (key@, value@));
        assert(all.take(i + 1).drop_last() == all.take(i as int));
        assert(all.take(i + 1).last() == all[i as int]);
        assert(attribute_readable(all[i as int]));
        if *key == key_name {
            name = Some(value.clone());
        } else if *key == key_class {
            class = match ImageFormatClass::try_from(value.as_str()) {
                Ok(c) => Some(c),
                Err(_) => None,
            };
        } else if *key == key_block_size {
            block_size = Some(value.clone());
        } else if *key == key_texels {
            texels_per_block = Some(value.clone());
        } else if *key == key_extent {
            block_extent = to_block_extent(value.clone());
        } else if *key == key_packed {
            packed = Some(value.clone());
        } else {
            compressed = match ImageFormatCompressionScheme::try_from(value.as_str()) {
                Ok(c) => Some(c),
                Err(_) => None,
            };
        }
        i = i + 1;
    }
    assert(all.take(all.len() as int) == all);
    let name = match name {
        Some(v) => v,
        None => String::new(),
    };
    let class = match class {
        Some(c) => c,
        None => ImageFormatClass::TestElement,
    };
    let block_size = match block_size {
        Some(v) => v,
        None => String::new(),
    };
    let texels_per_block = match texels_per_block {
        Some(v) => v,
        None => String::new(),
    };
    FormatAttributeInfo {
        name,
        class,
        block_size,
        texels_per_block,
        block_extent,
        packed,
        compressed,
    }
}

/// The characters of an optional text.
pub open spec fn packed_view(p: Option<String>) -> Option<Seq<char>> {
    match p {
        Some(v) => Some(v@),
        None => None,
    }
}

/// A component of a format: its name and its number of bits.
#[derive(Debug, Clone, Eq, PartialEq)]
pub struct FormatComponentInfo {
    pub name: String,
    pub bits: u8,
}

/// A plane of a format.
#[derive(Debug, Clone, Eq, PartialEq)]
pub struct FormatPlaneInfo {}

/// What the elements inside a format's element say about it.
#[derive(Debug, Clone, Eq, PartialEq)]
pub struct FormatElementInfo {
    pub components: Vec<FormatComponentInfo>,
    pub planes: Vec<FormatPlaneInfo>,
}

/// Everything the registry says about a format.
#[derive(Debug, Clone, Eq, PartialEq)]
pub struct ParsedFormat {
    pub attributes: FormatAttributeInfo,
    pub components: Vec<FormatComponentInfo>,
    pub planes: Vec<FormatPlaneInfo>,
}

/// An enum that can write out the Rust text that declares it.
pub trait GeneratedEnum: Sized + 'static {
    /// The attribute lines written above the enum.
    const ATTRIBUTES: &'static str;
    /// The enum's name.
    const NAME: &'static str;
    /// Every variant, in order.
    const ALL: &'static [Self];

    /// The text of a variant's line.
    spec fn variant_text(&self) -> Seq<char>;

    /// The text of one variant's line.
    fn generate_variant_text(&self) -> (text: &'static str)
        ensures
            text@ == self.variant_text(),
    ;

    /// The Rust text that declares the enum: its attributes, its header, each variant's text
    /// followed by a comma with a blank line between variants, and the closing brace.
    fn generate_text() -> (text: String)
        ensures
            text@ == Self::ATTRIBUTES@ + "\npub enum "@ + Self::NAME@ + " {\n"@ + variant_lines(
                Self::ALL@.map_values(|v: Self| v.variant_text()),
            ) + "\n}"@,
    {
        let mut variants = String::new();
        let all = Self::ALL;
        let mut i: usize = 0;
        while i < all.len()
            invariant
                i <= all@.len(),
                all@ == Self::ALL@,
                variants@ == variant_lines(
                    all@.take(i as int).map_values(|v: Self| v.variant_text()),
                ),
            decreases all.len() - i,
        {
            assert(all@.take(i + 1).map_values(|v: Self| v.variant_text()).drop_last()
                == all@.take(i as int).map_values(|v: Self| v.variant_text()));
            if i > 0 {
                variants.append("\n\n");
            }
            variants.append(all[i].generate_variant_text());
            variants.append(",");
            i = i + 1;
        }
        assert(all@.take(all@.len() as int) == all@);
        let mut text = Self::ATTRIBUTES.to_owned();
        text.append("\npub enum ");
        text.append(Self::NAME);
        text.append(" {\n");
        text.append(variants.as_str());
        text.append("\n}");
        text
    }
}

/// The variants' lines: each variant's text followed by a comma, with a blank line between two
/// variants.
pub open spec fn variant_lines(texts: Seq<Seq<char>>) -> Seq<char>
    decreases texts.len(),
{
    if texts.len() == 0 {
        Seq::empty()
    } else if texts.len() == 1 {
        texts[0] + ","@
    } else {
        variant_lines(texts.drop_last()) + "\n\n"@ + texts.last() + ","@
    }
}

} // verus!
