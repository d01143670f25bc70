//! JSON texts, as far as the stream writes them: strings, whole numbers,
//! arrays and objects, with blanks around the elements of an array. Every
//! text that a tree of this module stands for is a text of the JSON grammar.

use crate::decimal::digits;
use crate::json::member;
use crate::json::object_members;
use crate::json::item_json;
use crate::json::joined;
use crate::json::lemma_joined_push;
use crate::json::objects;
use crate::json::quoted;
use crate::json::tick_json;
use crate::status::present;
use crate::status::StatusDataView;
use crate::stream::array_text;
use crate::stream::record_lines;
use crate::stream::version_text;
use vstd::prelude::*;

verus! {

/// Whether `s` holds blanks only: spaces, tabs, line feeds, carriage returns.
pub open spec fn is_blank(s: Seq<char>) -> bool {
    forall|i: int| 0 <= i < s.len() ==> s[i] == ' ' || s[i] == '\n' || s[i] == '\r' || s[i] == '\t'
}

/// A JSON value as it is written.
pub enum Json {
    /// A string, by its characters before quoting.
    Text(Seq<char>),
    /// A whole number.
    Whole(nat),
    /// An array: the blanks behind `[`, then the elements.
    Array(Seq<char>, Seq<Element>),
    /// An object, by its members.
    Object(Seq<Member>),
}

/// An element of an array: a value with blanks around it.
pub struct Element {
    pub before: Seq<char>,
    pub value: Json,
    pub after: Seq<char>,
}

/// A member of an object: a key and a value.
pub struct Member {
    pub key: Seq<char>,
    pub value: Json,
}

/// The text of a value.
pub open spec fn text_of(json: Json) -> Seq<char>
    decreases json, 0nat,
{
    match json {
        Json::Text(s) => quoted(s),
        Json::Whole(n) => digits(n),
        Json::Array(lead, elements) => seq!['['] + lead + elements_text(elements) + seq![']'],
        Json::Object(members) => seq!['{'] + members_text(members) + seq!['}'],
    }
}

/// The text of an element.
pub open spec fn element_text(element: Element) -> Seq<char>
    decreases element, 0nat,
{
    element.before + text_of(element.value) + element.after
}

/// The texts of the elements, with `,` between them.
pub open spec fn elements_text(elements: Seq<Element>) -> Seq<char>
    decreases elements, 1nat,
{
    if elements.len() == 0 {
        Seq::empty()
    } else if elements.len() == 1 {
        element_text(elements[0])
    } else {
        elements_text(elements.drop_last()) + seq![','] + element_text(elements[elements.len() - 1])
    }
}

/// The text of a member: the key as a string, `:`, the value.
pub open spec fn member_text(member: Member) -> Seq<char>
    decreases member, 0nat,
{
    quoted(member.key) + seq![':'] + text_of(member.value)
}

/// The texts of the members, with `,` between them.
pub open spec fn members_text(members: Seq<Member>) -> Seq<char>
    decreases members, 1nat,
{
    if members.len() == 0 {
        Seq::empty()
    } else if members.len() == 1 {
        member_text(members[0])
    } else {
        members_text(members.drop_last()) + seq![','] + member_text(members[members.len() - 1])
    }
}

/// Whether only blanks stand where the grammar has white space.
pub open spec fn well_spaced(json: Json) -> bool
    decreases json, 0nat,
{
    match json {
        Json::Text(_) => true,
        Json::Whole(_) => true,
        Json::Array(lead, elements) => is_blank(lead) && forall|i: int|
            0 <= i < elements.len() ==> element_spaced(#[trigger] elements[i]),
        Json::Object(members) => forall|i: int|
            0 <= i < members.len() ==> member_spaced(#[trigger] members[i]),
    }
}

/// Whether only blanks stand around the element and inside it.
pub open spec fn element_spaced(element: Element) -> bool
    decreases element, 0nat,
{
    is_blank(element.before) && is_blank(element.after) && well_spaced(element.value)
}

/// Whether only blanks stand where the member's value has white space.
pub open spec fn member_spaced(member: Member) -> bool
    decreases member, 0nat,
{
    well_spaced(member.value)
}

/// Whether `text` is a JSON text.
pub open spec fn is_json(text: Seq<char>) -> bool {
    exists|json: Json| well_spaced(json) && #[trigger] text_of(json) == text
}

/// Whether `text` is a JSON text whose value is an array.
pub open spec fn is_json_array(text: Seq<char>) -> bool {
    exists|json: Json| json is Array && well_spaced(json) && #[trigger] text_of(json) == text
}

/// One member more appends `,` and the member, or the member alone where
/// it is the first.
pub proof fn lemma_members_push(members: Seq<Member>, member: Member)
    ensures
        members_text(members.push(member)) == if members.len() == 0 {
            member_text(member)
        } else {
            members_text(members) + seq![','] + member_text(member)
        },
{
    let all = members.push(member);
    assert(all.drop_last() =~= members);
    assert(all[all.len() - 1] == member);
}

/// One element more appends `,` and the element, or the element alone where
/// it is the first.
pub proof fn lemma_elements_push(elements: Seq<Element>, element: Element)
    ensures
        elements_text(elements.push(element)) == if elements.len() == 0 {
            element_text(element)
        } else {
            elements_text(elements) + seq![','] + element_text(element)
        },
{
    let all = elements.push(element);
    assert(all.drop_last() =~= elements);
    assert(all[all.len() - 1] == element);
}

/// The member whose value is the string `value`.
pub open spec fn text_member(key: Seq<char>, value: Seq<char>) -> Member {
    Member { key, value: Json::Text(value) }
}

/// The members of the object of a segment.
pub open spec fn item_members(item: StatusDataView) -> Seq<Member> {
    let front = seq![text_member("name"@, item.name)];
    let front = match item.color {
        Some(c) => front.push(text_member("color"@, c)),
        None => front,
    };
    front.push(text_member("markup"@, item.markup.word())).push(
        text_member("full_text"@, item.full_text),
    )
}

/// The object of a segment, as a tree.
pub open spec fn item_tree(item: StatusDataView) -> Json {
    Json::Object(item_members(item))
}

/// The element that holds the object of a segment, without blanks.
pub open spec fn item_element(item: StatusDataView) -> Element {
    Element { before: Seq::empty(), value: item_tree(item), after: Seq::empty() }
}

/// The elements of the array of a tick.
pub open spec fn tick_elements(kept: Seq<StatusDataView>) -> Seq<Element> {
    kept.map_values(|item: StatusDataView| item_element(item))
}

/// The array of a tick, as a tree: the objects of its segments that are
/// present, without blanks.
pub open spec fn tick_tree(items: Seq<StatusDataView>) -> Json {
    Json::Array(Seq::empty(), tick_elements(present(items)))
}

proof fn lemma_text_members_push(members: Seq<Member>, texts: Seq<Seq<char>>, key: Seq<char>, value: Seq<char>)
    requires
        members.len() == texts.len(),
        members_text(members) == joined(texts, seq![',']),
    ensures
        members_text(members.push(text_member(key, value))) == joined(
            texts.push(member(key, quoted(value))),
            seq![','],
        ),
{
    lemma_members_push(members, text_member(key, value));
    lemma_joined_push(texts, seq![','], member(key, quoted(value)));
    assert(member_text(text_member(key, value)) == member(key, quoted(value)));
}

/// The wire form of a segment is the text of its tree.
pub proof fn lemma_item_is_json(item: StatusDataView)
    ensures
        well_spaced(item_tree(item)),
        text_of(item_tree(item)) == item_json(item),
        is_json(item_json(item)),
{
    let none = Seq::<Member>::empty();
    let no_text = Seq::<Seq<char>>::empty();
    lemma_text_members_push(none, no_text, "name"@, item.name);
    let m1 = none.push(text_member("name"@, item.name));
    let t1 = no_text.push(member("name"@, quoted(item.name)));
    assert(m1 =~= seq![text_member("name"@, item.name)]);
    assert(t1 =~= seq![member("name"@, quoted(item.name))]);
    let (m2, t2) = match item.color {
        Some(c) => {
            lemma_text_members_push(m1, t1, "color"@, c);
            (m1.push(text_member("color"@, c)), t1.push(member("color"@, quoted(c))))
        },
        None => (m1, t1),
    };
    lemma_text_members_push(m2, t2, "markup"@, item.markup.word());
    let m3 = m2.push(text_member("markup"@, item.markup.word()));
    let t3 = t2.push(member("markup"@, quoted(item.markup.word())));
    lemma_text_members_push(m3, t3, "full_text"@, item.full_text);
    let m4 = m3.push(text_member("full_text"@, item.full_text));
    let t4 = t3.push(member("full_text"@, quoted(item.full_text)));
    assert(m4 == item_members(item));
    assert(t4 == object_members(
        quoted(item.name),
        match item.color {
            Some(c) => Some(quoted(c)),
            None => None,
        },
        item.markup,
        quoted(item.full_text),
    ));
    assert(text_of(item_tree(item)) == item_json(item));
    assert forall|i: int| 0 <= i < m4.len() implies member_spaced(#[trigger] m4[i]) by {
        assert(m4[i].value is Text);
    }
}

proof fn lemma_elements_of(kept: Seq<StatusDataView>)
    ensures
        elements_text(tick_elements(kept)) == joined(objects(kept), seq![',']),
    decreases kept.len(),
{
    if kept.len() > 0 {
        let front = kept.drop_last();
        let last = kept.last();
        lemma_elements_of(front);
        lemma_item_is_json(last);
        lemma_elements_push(tick_elements(front), item_element(last));
        lemma_joined_push(objects(front), seq![','], item_json(last));
        assert(tick_elements(kept) =~= tick_elements(front).push(item_element(last)));
        assert(objects(kept) =~= objects(front).push(item_json(last)));
        assert(element_text(item_element(last)) =~= item_json(last));
    } else {
        assert(tick_elements(kept) =~= Seq::<Element>::empty());
        assert(objects(kept) =~= Seq::<Seq<char>>::empty());
    }
}

/// The wire form of a tick is a JSON array: the text of its tree.
pub proof fn lemma_tick_is_json(items: Seq<StatusDataView>)
    ensures
        well_spaced(tick_tree(items)),
        text_of(tick_tree(items)) == tick_json(items),
        is_json_array(tick_json(items)),
        is_json(tick_json(items)),
{
    let kept = present(items);
    let elements = tick_elements(kept);
    lemma_elements_of(kept);
    assert(text_of(tick_tree(items)) =~= tick_json(items));
    assert forall|i: int| 0 <= i < elements.len() implies element_spaced(
        #[trigger] elements[i],
    ) by {
        lemma_item_is_json(kept[i]);
    }
    assert(is_blank(Seq::<char>::empty()));
    assert(well_spaced(tick_tree(items)));
    assert(tick_tree(items) is Array);
}

/// The version line is a JSON text: an object with the one member `version`.
pub proof fn lemma_version_is_json()
    ensures
        is_json(version_text()),
{
    let member = Member { key: "version"@, value: Json::Whole(1) };
    let tree = Json::Object(seq![member]);
    reveal_strlit("version");
    reveal_strlit("{\"version\":1}");
    crate::json::lemma_quoted_plain("version"@);
    assert(digits(1) =~= seq!['1']);
    assert(member_text(member) =~= quoted("version"@) + seq![':', '1']);
    assert(seq![member].len() == 1);
    assert(members_text(seq![member]) == member_text(seq![member][0]));
    assert(text_of(tree) =~= version_text());
    assert(member_spaced(member));
    assert(well_spaced(tree));
}

/// The tree that a JSON text is the text of.
pub open spec fn tree_of(text: Seq<char>) -> Json {
    choose|json: Json| well_spaced(json) && #[trigger] text_of(json) == text
}

/// The element of a record in the array of the stream: the record, then the
/// line feed that ends its line.
pub open spec fn record_element(record: Seq<char>) -> Element {
    Element { before: Seq::empty(), value: tree_of(record), after: seq!['\n'] }
}

/// The elements of the array of the stream.
pub open spec fn record_elements(records: Seq<Seq<char>>) -> Seq<Element> {
    records.map_values(|record: Seq<char>| record_element(record))
}

proof fn lemma_lines_of(records: Seq<Seq<char>>)
    requires
        forall|i: int| 0 <= i < records.len() ==> is_json(#[trigger] records[i]),
    ensures
        elements_text(record_elements(records)) == record_lines(records),
    decreases records.len(),
{
    if records.len() > 0 {
        let front = records.drop_last();
        let last = records.last();
        assert forall|i: int| 0 <= i < front.len() implies is_json(#[trigger] front[i]) by {
            assert(front[i] == records[i]);
        }
        lemma_lines_of(front);
        lemma_elements_push(record_elements(front), record_element(last));
        assert(record_elements(records) =~= record_elements(front).push(record_element(last)));
        assert(is_json(records[records.len() - 1]));
        assert(text_of(tree_of(last)) == last);
        assert(element_text(record_element(last)) =~= last + seq!['\n']);
        assert(elements_text(record_elements(records)) =~= record_lines(records));
    } else {
        assert(record_elements(records) =~= Seq::<Element>::empty());
    }
}

/// The array of the stream can be closed at any time: where every record is
/// a JSON text, the lines written so far and one `]` are a JSON text whose
/// value is an array.
pub proof fn lemma_open_array_closes(records: Seq<Seq<char>>)
    requires
        forall|i: int| 0 <= i < records.len() ==> is_json(#[trigger] records[i]),
    ensures
        is_json_array(array_text(records) + seq![']']),
{
    let elements = record_elements(records);
    let tree = Json::Array(seq!['\n'], elements);
    lemma_lines_of(records);
    assert(text_of(tree) =~= array_text(records) + seq![']']);
    assert forall|i: int| 0 <= i < elements.len() implies element_spaced(
        #[trigger] elements[i],
    ) by {
        assert(is_json(records[i]));
        assert(is_blank(seq!['\n']));
        assert(is_blank(Seq::<char>::empty()));
    }
    assert(is_blank(seq!['\n']));
    assert(well_spaced(tree));
    assert(tree is Array);
}

/// The stream of any number of ticks is well formed: its version line is a
/// JSON text, and what follows it, closed with one `]`, is a JSON text whose
/// value is an array.
pub proof fn lemma_stream_closes(ticks: Seq<Seq<StatusDataView>>)
    ensures
        is_json(version_text()),
        is_json_array(
            array_text(ticks.map_values(|tick: Seq<StatusDataView>| tick_json(tick))) + seq![']'],
        ),
{
    let records = ticks.map_values(|tick: Seq<StatusDataView>| tick_json(tick));
    lemma_version_is_json();
    assert forall|i: int| 0 <= i < records.len() implies is_json(#[trigger] records[i]) by {
        lemma_tick_is_json(ticks[i]);
    }
    lemma_open_array_closes(records);
}

} // verus!
