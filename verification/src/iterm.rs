//! Reading an iTerm colour scheme (`.itermcolors`), an XML property list.
//!
//! The root element holds a dictionary whose `key` elements name palette
//! slots and whose `dict` elements describe one colour each, as pairs of a
//! component key and a real number between 0 and 1. Turning the text of such
//! a number into a byte needs real arithmetic, which this library leaves to
//! its caller: every function here takes that conversion as `convert`.

use vstd::prelude::*;
use crate::color::Color;
use crate::error::{ParseError, ParseFailure, outcome};
use crate::markup::{XmlElement, XmlNode, parse_xml, readable_document};
use crate::scheme::{ColorScheme, Slot};
use crate::text::{chars_of, spells};

verus! {

/// A conversion from the text of a real number to a colour component, as a
/// mathematical function; `None` where the text is no number.
pub type RealModel = spec_fn(Seq<char>) -> Option<u8>;

/// Whether the executable conversion `convert` computes `model`: whatever it
/// returns for a text is what `model` gives for it.
pub open spec fn computes<F: Fn(&str) -> Option<u8>>(convert: &F, model: RealModel) -> bool {
    forall|text: &str, byte: Option<u8>| #[trigger] convert.ensures((text,), byte) ==> byte == model(text@)
}

/// Whether `element` has the given name and no namespace.
pub open spec fn is_plain(element: XmlElement, name: Seq<char>) -> bool {
    element.name@ == name && element.namespace is None
}

/// The elements among `nodes`, in order.
pub open spec fn child_elements(nodes: Seq<XmlNode>) -> Seq<XmlElement>
    decreases nodes.len(),
{
    if nodes.len() == 0 {
        Seq::empty()
    } else {
        let front = child_elements(nodes.drop_last());
        match nodes.last() {
            XmlNode::Element(element) => front.push(element),
            _ => front,
        }
    }
}

/// The elements among `nodes` that have the given name and no namespace, in
/// order.
pub open spec fn children_named(nodes: Seq<XmlNode>, name: Seq<char>) -> Seq<XmlElement>
    decreases nodes.len(),
{
    if nodes.len() == 0 {
        Seq::empty()
    } else {
        let front = children_named(nodes.drop_last(), name);
        match nodes.last() {
            XmlNode::Element(element) => if is_plain(element, name) {
                front.push(element)
            } else {
                front
            },
            _ => front,
        }
    }
}

/// The text that `element` starts with; an element without children, or one
/// whose first child is no text, is a `NotCharacterNode` failure.
pub open spec fn text_of(element: XmlElement) -> Result<Seq<char>, ParseFailure> {
    if element.children@.len() > 0 && element.children@[0] is Text {
        Ok(element.children@[0]->Text_0@)
    } else {
        Err(ParseFailure::NotCharacterNode(element.name@))
    }
}

/// The byte that the real number in `value` stands for.
pub open spec fn real_of(value: XmlElement, model: RealModel) -> Result<u8, ParseFailure> {
    match text_of(value) {
        Err(e) => Err(e),
        Ok(text) => match model(text) {
            Some(byte) => Ok(byte),
            None => Err(ParseFailure::ParseFloat),
        },
    }
}

/// `color` after one pair of a component key and its value. The alpha
/// component and the colour space are recognised and skipped, their values
/// unread; any other key that is no colour component is a failure.
pub open spec fn with_component(
    color: Color,
    key: XmlElement,
    value: XmlElement,
    model: RealModel,
) -> Result<Color, ParseFailure> {
    match text_of(key) {
        Err(e) => Err(e),
        Ok(name) => if name == "Red Component"@ {
            match real_of(value, model) {
                Ok(byte) => Ok(Color { red: byte, ..color }),
                Err(e) => Err(e),
            }
        } else if name == "Green Component"@ {
            match real_of(value, model) {
                Ok(byte) => Ok(Color { green: byte, ..color }),
                Err(e) => Err(e),
            }
        } else if name == "Blue Component"@ {
            match real_of(value, model) {
                Ok(byte) => Ok(Color { blue: byte, ..color }),
                Err(e) => Err(e),
            }
        } else if name == "Alpha Component"@ || name == "Color Space"@ {
            Ok(color)
        } else {
            Err(ParseFailure::UnknownColorComponent(name))
        },
    }
}

/// The colour that the first `pairs` pairs of `elements` describe, starting
/// from black; the first failing pair decides.
pub open spec fn color_of_pairs(elements: Seq<XmlElement>, pairs: nat, model: RealModel) -> Result<
    Color,
    ParseFailure,
>
    decreases pairs,
{
    if pairs == 0 {
        Ok(Color::black())
    } else {
        match color_of_pairs(elements, (pairs - 1) as nat, model) {
            Err(e) => Err(e),
            Ok(color) => with_component(
                color,
                elements[2 * (pairs - 1)],
                elements[2 * (pairs - 1) + 1],
                model,
            ),
        }
    }
}

/// The colour that a colour dictionary describes: its element children are
/// taken two at a time, and an element left over at the end is ignored.
pub open spec fn color_of_dict(dict: XmlElement, model: RealModel) -> Result<Color, ParseFailure> {
    let elements = child_elements(dict.children@);
    color_of_pairs(elements, elements.len() / 2, model)
}

/// The palette slot that an iTerm key names, if any.
pub open spec fn iterm_slot(name: Seq<char>) -> Option<Slot> {
    if name == "Ansi 0 Color"@ {
        Some(Slot::Black)
    } else if name == "Ansi 1 Color"@ {
        Some(Slot::Red)
    } else if name == "Ansi 2 Color"@ {
        Some(Slot::Green)
    } else if name == "Ansi 3 Color"@ {
        Some(Slot::Yellow)
    } else if name == "Ansi 4 Color"@ {
        Some(Slot::Blue)
    } else if name == "Ansi 5 Color"@ {
        Some(Slot::Magenta)
    } else if name == "Ansi 6 Color"@ {
        Some(Slot::Cyan)
    } else if name == "Ansi 7 Color"@ {
        Some(Slot::White)
    } else if name == "Ansi 8 Color"@ {
        Some(Slot::BrightBlack)
    } else if name == "Ansi 9 Color"@ {
        Some(Slot::BrightRed)
    } else if name == "Ansi 10 Color"@ {
        Some(Slot::BrightGreen)
    } else if name == "Ansi 11 Color"@ {
        Some(Slot::BrightYellow)
    } else if name == "Ansi 12 Color"@ {
        Some(Slot::BrightBlue)
    } else if name == "Ansi 13 Color"@ {
        Some(Slot::BrightMagenta)
    } else if name == "Ansi 14 Color"@ {
        Some(Slot::BrightCyan)
    } else if name == "Ansi 15 Color"@ {
        Some(Slot::BrightWhite)
    } else if name == "Background Color"@ {
        Some(Slot::Background)
    } else if name == "Foreground Color"@ {
        Some(Slot::Foreground)
    } else if name == "Cursor Color"@ {
        Some(Slot::Cursor)
    } else if name == "Cursor Text Color"@ {
        Some(Slot::CursorText)
    } else {
        None
    }
}

/// `scheme` after one entry of the root dictionary: the key's text is read
/// first, then the colour; a key that names no slot leaves the scheme as it
/// is, though its colour must still be well-formed.
pub open spec fn with_entry(
    scheme: ColorScheme,
    key: XmlElement,
    value: XmlElement,
    model: RealModel,
) -> Result<ColorScheme, ParseFailure> {
    match text_of(key) {
        Err(e) => Err(e),
        Ok(name) => match color_of_dict(value, model) {
            Err(e) => Err(e),
            Ok(color) => Ok(scheme.with_maybe(iterm_slot(name), color)),
        },
    }
}

/// The scheme after the first `count` entries, the i-th key going with the
/// i-th value; the first failing entry decides.
pub open spec fn scheme_of_entries(
    keys: Seq<XmlElement>,
    values: Seq<XmlElement>,
    count: nat,
    model: RealModel,
) -> Result<ColorScheme, ParseFailure>
    decreases count,
{
    if count == 0 {
        Ok(ColorScheme::blank())
    } else {
        match scheme_of_entries(keys, values, (count - 1) as nat, model) {
            Err(e) => Err(e),
            Ok(scheme) => with_entry(scheme, keys[count - 1], values[count - 1], model),
        }
    }
}

/// The number of entries of a root dictionary: its `key` and `dict` children
/// are paired off until either runs out.
pub open spec fn entry_count(keys: Seq<XmlElement>, values: Seq<XmlElement>) -> nat {
    if keys.len() <= values.len() {
        keys.len()
    } else {
        values.len()
    }
}

/// The scheme that a property list describes. Its root dictionary is the
/// first `dict` child of the root element.
pub open spec fn scheme_of_root(root: XmlElement, model: RealModel) -> Result<ColorScheme, ParseFailure> {
    let dicts = children_named(root.children@, "dict"@);
    if dicts.len() == 0 {
        Err(ParseFailure::NoRootDict)
    } else {
        let keys = children_named(dicts[0].children@, "key"@);
        let values = children_named(dicts[0].children@, "dict"@);
        scheme_of_entries(keys, values, entry_count(keys, values), model)
    }
}

/// The scheme that a parsed text describes; a text that is no XML document
/// is an `XMLParse` failure.
pub open spec fn scheme_of_document(document: Option<XmlElement>, model: RealModel) -> Result<
    ColorScheme,
    ParseFailure,
> {
    match document {
        None => Err(ParseFailure::XMLParse),
        Some(root) => scheme_of_root(root, model),
    }
}

/// Whether the references in `refs` point at the elements `elements`.
pub open spec fn refers_to(refs: Seq<&XmlElement>, elements: Seq<XmlElement>) -> bool {
    &&& refs.len() == elements.len()
    &&& forall|i: int| 0 <= i < refs.len() ==> *(#[trigger] refs[i]) == elements[i]
}

/// The element children of `element`.
pub fn elements_in<'a>(element: &'a XmlElement) -> (r: Vec<&'a XmlElement>)
    ensures
        refers_to(r@, child_elements(element.children@)),
{
    let mut found: Vec<&'a XmlElement> = Vec::new();
    let mut i: usize = 0;
    while i < element.children.len()
        invariant
            i <= element.children@.len(),
            refers_to(found@, child_elements(element.children@.take(i as int))),
        decreases element.children@.len() - i,
    {
        assert(element.children@.take(i + 1).drop_last() == element.children@.take(i as int));
        match &element.children[i] {
            XmlNode::Element(child) => {
                found.push(child);
            },
            _ => {},
        }
        i += 1;
    }
    assert(element.children@.take(i as int) == element.children@);
    found
}

/// The element children of `element` that are named `name` and have no
/// namespace.
pub fn elements_named<'a>(element: &'a XmlElement, name: &str) -> (r: Vec<&'a XmlElement>)
    ensures
        refers_to(r@, children_named(element.children@, name@)),
{
    let mut found: Vec<&'a XmlElement> = Vec::new();
    let mut i: usize = 0;
    while i < element.children.len()
        invariant
            i <= element.children@.len(),
            refers_to(found@, children_named(element.children@.take(i as int), name@)),
        decreases element.children@.len() - i,
    {
        assert(element.children@.take(i + 1).drop_last() == element.children@.take(i as int));
        match &element.children[i] {
            XmlNode::Element(child) => {
                let child_name = chars_of(child.name.as_str());
                if child.namespace.is_none() && spells(&child_name, name) {
                    found.push(child);
                }
            },
            _ => {},
        }
        i += 1;
    }
    assert(element.children@.take(i as int) == element.children@);
    found
}

/// The text that `element` starts with.
pub fn text_in<'a>(element: &'a XmlElement) -> (r: Result<&'a str, ParseError>)
    ensures
        match r {
            Ok(text) => text_of(*element) == Ok::<Seq<char>, ParseFailure>(text@),
            Err(e) => text_of(*element) == Err::<Seq<char>, ParseFailure>(e@),
        },
{
    if element.children.len() > 0 {
        match &element.children[0] {
            XmlNode::Text(text) => {
                return Ok(text.as_str());
            },
            _ => {},
        }
    }
    Err(ParseError::NotCharacterNode(element.name.clone()))
}

/// The byte that the real number in `value` stands for, by the conversion
/// `convert`.
pub fn real_in<F: Fn(&str) -> Option<u8>>(value: &XmlElement, convert: &F) -> (r: Result<u8, ParseError>)
    requires
        forall|text: &str| #[trigger] convert.requires((text,)),
    ensures
        text_of(*value) is Err ==> outcome(r) == Err::<u8, ParseFailure>(text_of(*value)->Err_0),
        forall|model: RealModel| #[trigger] computes(convert, model) ==> outcome(r) == real_of(*value, model),
{
    let text = text_in(value)?;
    match convert(text) {
        Some(byte) => Ok(byte),
        None => Err(ParseError::ParseFloat),
    }
}

/// `color` after one pair of a component key and its value.
pub fn apply_component<F: Fn(&str) -> Option<u8>>(
    color: Color,
    key: &XmlElement,
    value: &XmlElement,
    convert: &F,
) -> (r: Result<Color, ParseError>)
    requires
        forall|text: &str| #[trigger] convert.requires((text,)),
    ensures
        forall|model: RealModel| #[trigger]
            computes(convert, model) ==> outcome(r) == with_component(color, *key, *value, model),
{
    let name = text_in(key)?;
    let letters = chars_of(name);
    if spells(&letters, "Red Component") {
        let byte = real_in(value, convert)?;
        Ok(Color { red: byte, green: color.green, blue: color.blue })
    } else if spells(&letters, "Green Component") {
        let byte = real_in(value, convert)?;
        Ok(Color { red: color.red, green: byte, blue: color.blue })
    } else if spells(&letters, "Blue Component") {
        let byte = real_in(value, convert)?;
        Ok(Color { red: color.red, green: color.green, blue: byte })
    } else if spells(&letters, "Alpha Component") || spells(&letters, "Color Space") {
        Ok(color)
    } else {
        Err(ParseError::UnknownColorComponent(name.to_owned()))
    }
}

/// The colour that a colour dictionary describes.
pub fn color_in_dict<F: Fn(&str) -> Option<u8>>(dict: &XmlElement, convert: &F) -> (r: Result<
    Color,
    ParseError,
>)
    requires
        forall|text: &str| #[trigger] convert.requires((text,)),
    ensures
        forall|model: RealModel| #[trigger]
            computes(convert, model) ==> outcome(r) == color_of_dict(*dict, model),
{
    let elements = elements_in(dict);
    let pairs: usize = elements.len() / 2;
    let ghost all = child_elements(dict.children@);
    let mut color = Color { red: 0, green: 0, blue: 0 };
    let mut done: usize = 0;
    while done < pairs
        invariant
            done <= pairs,
            all == child_elements(dict.children@),
            pairs == all.len() / 2,
            pairs == elements@.len() / 2,
            refers_to(elements@, all),
            forall|text: &str| #[trigger] convert.requires((text,)),
            forall|model: RealModel| #[trigger]
                computes(convert, model) ==> color_of_pairs(all, done as nat, model) == Ok::<
                    Color,
                    ParseFailure,
                >(color),
        decreases pairs - done,
    {
        let step = apply_component(color, elements[2 * done], elements[2 * done + 1], convert);
        proof {
            assert(*elements@[2 * done] == all[2 * done]);
            assert(*elements@[2 * done + 1] == all[2 * done + 1]);
            assert forall|model: RealModel| #[trigger] computes(convert, model) implies outcome(step)
                == color_of_pairs(all, (done + 1) as nat, model) by {
                assert(color_of_pairs(all, done as nat, model) == Ok::<Color, ParseFailure>(color));
            }
        }
        match &step {
            Ok(next) => {
                color = *next;
            },
            Err(e) => {
                proof {
                    assert forall|model: RealModel| #[trigger] computes(convert, model) implies Err::<
                        Color,
                        ParseFailure,
                    >(e@) == color_of_dict(*dict, model) by {
                        assert(outcome(step) == color_of_pairs(all, (done + 1) as nat, model));
                        lemma_failure_stays(all, (done + 1) as nat, pairs as nat, model);
                    }
                }
                return step;
            },
        }
        done += 1;
    }
    Ok(color)
}

/// Once a prefix of the pairs has failed, every longer prefix fails alike.
pub proof fn lemma_failure_stays(elements: Seq<XmlElement>, failed: nat, pairs: nat, model: RealModel)
    requires
        failed <= pairs,
        color_of_pairs(elements, failed, model) is Err,
    ensures
        color_of_pairs(elements, pairs, model) == color_of_pairs(elements, failed, model),
    decreases pairs,
{
    if failed < pairs {
        lemma_failure_stays(elements, failed, (pairs - 1) as nat, model);
    }
}

/// The palette slot that an iTerm key names, if any.
pub fn slot_named(name: &str) -> (r: Option<Slot>)
    ensures
        r == iterm_slot(name@),
{
    let letters = chars_of(name);
    if spells(&letters, "Ansi 0 Color") {
        Some(Slot::Black)
    } else if spells(&letters, "Ansi 1 Color") {
        Some(Slot::Red)
    } else if spells(&letters, "Ansi 2 Color") {
        Some(Slot::Green)
    } else if spells(&letters, "Ansi 3 Color") {
        Some(Slot::Yellow)
    } else if spells(&letters, "Ansi 4 Color") {
        Some(Slot::Blue)
    } else if spells(&letters, "Ansi 5 Color") {
        Some(Slot::Magenta)
    } else if spells(&letters, "Ansi 6 Color") {
        Some(Slot::Cyan)
    } else if spells(&letters, "Ansi 7 Color") {
        Some(Slot::White)
    } else if spells(&letters, "Ansi 8 Color") {
        Some(Slot::BrightBlack)
    } else if spells(&letters, "Ansi 9 Color") {
        Some(Slot::BrightRed)
    } else if spells(&letters, "Ansi 10 Color") {
        Some(Slot::BrightGreen)
    } else if spells(&letters, "Ansi 11 Color") {
        Some(Slot::BrightYellow)
    } else if spells(&letters, "Ansi 12 Color") {
        Some(Slot::BrightBlue)
    } else if spells(&letters, "Ansi 13 Color") {
        Some(Slot::BrightMagenta)
    } else if spells(&letters, "Ansi 14 Color") {
        Some(Slot::BrightCyan)
    } else if spells(&letters, "Ansi 15 Color") {
        Some(Slot::BrightWhite)
    } else if spells(&letters, "Background Color") {
        Some(Slot::Background)
    } else if spells(&letters, "Foreground Color") {
        Some(Slot::Foreground)
    } else if spells(&letters, "Cursor Color") {
        Some(Slot::Cursor)
    } else if spells(&letters, "Cursor Text Color") {
        Some(Slot::CursorText)
    } else {
        None
    }
}

/// Once a prefix of the entries has failed, every longer prefix fails alike.
pub proof fn lemma_entry_failure_stays(
    keys: Seq<XmlElement>,
    values: Seq<XmlElement>,
    failed: nat,
    count: nat,
    model: RealModel,
)
    requires
        failed <= count,
        scheme_of_entries(keys, values, failed, model) is Err,
    ensures
        scheme_of_entries(keys, values, count, model) == scheme_of_entries(keys, values, failed, model),
    decreases count,
{
    if failed < count {
        lemma_entry_failure_stays(keys, values, failed, (count - 1) as nat, model);
    }
}

impl ColorScheme {
    /// Reads the scheme that a parsed property list describes.
    ///
    /// Where `convert` computes a function, the result is exactly the scheme
    /// or the failure that the document has under that function. A document
    /// without a root dictionary fails whatever `convert` does.
    #[verifier::loop_isolation(false)]
    pub fn from_iterm_document<F: Fn(&str) -> Option<u8>>(root: &XmlElement, convert: &F) -> (r: Result<
        ColorScheme,
        ParseError,
    >)
        requires
            forall|text: &str| #[trigger] convert.requires((text,)),
        ensures
            children_named(root.children@, "dict"@).len() == 0 ==> outcome(r) == Err::<
                ColorScheme,
                ParseFailure,
            >(ParseFailure::NoRootDict),
            forall|model: RealModel| #[trigger]
                computes(convert, model) ==> outcome(r) == scheme_of_root(*root, model),
    {
        let dicts = elements_named(root, "dict");
        if dicts.len() == 0 {
            return Err(ParseError::NoRootDict);
        }
        let root_dict = dicts[0];
        let keys = elements_named(root_dict, "key");
        let values = elements_named(root_dict, "dict");
        let count: usize = if keys.len() <= values.len() {
            keys.len()
        } else {
            values.len()
        };
        let ghost all_keys = children_named(root_dict.children@, "key"@);
        let ghost all_values = children_named(root_dict.children@, "dict"@);
        let mut scheme = ColorScheme::default();
        let mut done: usize = 0;
        while done < count
            invariant
                done <= count,
                count == entry_count(all_keys, all_values),
                refers_to(keys@, all_keys),
                refers_to(values@, all_values),
                forall|text: &str| #[trigger] convert.requires((text,)),
                forall|model: RealModel| #[trigger]
                    computes(convert, model) ==> scheme_of_entries(
                        all_keys,
                        all_values,
                        done as nat,
                        model,
                    ) == Ok::<ColorScheme, ParseFailure>(scheme),
            decreases count - done,
        {
            let step = entry(scheme, keys[done], values[done], convert);
            proof {
                assert(*keys@[done as int] == all_keys[done as int]);
                assert(*values@[done as int] == all_values[done as int]);
                assert forall|model: RealModel| #[trigger] computes(convert, model) implies outcome(step)
                    == scheme_of_entries(all_keys, all_values, (done + 1) as nat, model) by {
                    assert(scheme_of_entries(all_keys, all_values, done as nat, model) == Ok::<
                        ColorScheme,
                        ParseFailure,
                    >(scheme));
                }
            }
            match &step {
                Ok(next) => {
                    scheme = *next;
                },
                Err(_) => {
                    proof {
                        assert forall|model: RealModel| #[trigger]
                            computes(convert, model) implies outcome(step) == scheme_of_entries(
                            all_keys,
                            all_values,
                            count as nat,
                            model,
                        ) by {
                            assert(outcome(step) == scheme_of_entries(
                                all_keys,
                                all_values,
                                (done + 1) as nat,
                                model,
                            ));
                            lemma_entry_failure_stays(
                                all_keys,
                                all_values,
                                (done + 1) as nat,
                                count as nat,
                                model,
                            );
                        }
                    }
                    return step;
                },
            }
            done += 1;
        }
        Ok(scheme)
    }

    /// Reads an iTerm colour scheme from the text of an `.itermcolors` file.
    ///
    /// The text is parsed as XML; what follows is
    /// [`ColorScheme::from_iterm_document`]. A text that is no XML document
    /// fails with `XMLParse` whatever `convert` does.
    pub fn from_iterm<F: Fn(&str) -> Option<u8>>(content: &str, convert: F) -> (r: Result<
        ColorScheme,
        ParseError,
    >)
        requires
            forall|text: &str| #[trigger] convert.requires((text,)),
        ensures
            readable_document(content@) is None ==> outcome(r) == Err::<ColorScheme, ParseFailure>(
                ParseFailure::XMLParse,
            ),
            forall|model: RealModel| #[trigger]
                computes(&convert, model) ==> outcome(r) == scheme_of_document(
                    readable_document(content@),
                    model,
                ),
    {
        match parse_xml(content) {
            None => Err(ParseError::XMLParse),
            Some(root) => ColorScheme::from_iterm_document(&root, &convert),
        }
    }
}

/// `scheme` after one entry of the root dictionary.
pub fn entry<F: Fn(&str) -> Option<u8>>(
    scheme: ColorScheme,
    key: &XmlElement,
    value: &XmlElement,
    convert: &F,
) -> (r: Result<ColorScheme, ParseError>)
    requires
        forall|text: &str| #[trigger] convert.requires((text,)),
    ensures
        forall|model: RealModel| #[trigger]
            computes(convert, model) ==> outcome(r) == with_entry(scheme, *key, *value, model),
{
    let name = text_in(key)?;
    let color = color_in_dict(value, convert)?;
    let mut next = scheme;
    match slot_named(name) {
        Some(slot) => {
            next.set(slot, color);
        },
        None => {},
    }
    Ok(next)
}

} // verus!
