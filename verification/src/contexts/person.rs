//! A person, written as JSON text and read from it.

use vstd::prelude::*;
use serde_json::Value;
use crate::component::{CanUseComponent, DelegateComponent, HasProvider, IsProviderFor};
use crate::failure::{raised, CauseView, FailureKind, FailureView};
use crate::json::{json_from_text, json_to_text, no_members, object_value, Json};
use crate::providers::json::{FormatAsJsonString, ParseFromJsonString};
use crate::schema::{put_string, string_member, FromJson, SchemaMismatch, ToJson};
use crate::traits::string::{
    CanFormatToString, CanParseFromString, StringFormatter, StringFormatterComponent,
    StringParser, StringParserComponent,
};

verus! {

/// A person, by name.
#[derive(Debug, Eq, PartialEq)]
pub struct Person {
    pub first_name: String,
    pub last_name: String,
}

/// A [`Person`] as a mathematical value.
pub ghost struct PersonView {
    pub first_name: Seq<char>,
    pub last_name: Seq<char>,
}

impl View for Person {
    type V = PersonView;

    open spec fn view(&self) -> PersonView {
        PersonView { first_name: self.first_name@, last_name: self.last_name@ }
    }
}

impl ToJson for Person {
    /// The object with the two names at `first_name` and `last_name`.
    open spec fn encoded(value: PersonView) -> Json {
        Json::Object(
            Map::<Seq<char>, Json>::empty().insert(
                "first_name"@,
                Json::Text(value.first_name),
            ).insert("last_name"@, Json::Text(value.last_name)),
        )
    }

    fn to_json(&self) -> (value: Value) {
        let mut members = no_members();
        put_string(&mut members, "first_name", self.first_name.as_str());
        put_string(&mut members, "last_name", self.last_name.as_str());
        object_value(members)
    }
}

impl FromJson for Person {
    /// The person whose names are the strings at `first_name` and `last_name`.
    /// Other members are passed over.
    open spec fn decoded(doc: Json) -> Result<PersonView, Seq<char>> {
        match doc.text_member("first_name"@) {
            Some(first_name) => match doc.text_member("last_name"@) {
                Some(last_name) => Ok(PersonView { first_name, last_name }),
                None => Err("last_name"@),
            },
            None => Err("first_name"@),
        }
    }

    fn from_json(value: &Value) -> (out: Result<Person, SchemaMismatch>) {
        match string_member(value, "first_name") {
            Ok(first_name) => match string_member(value, "last_name") {
                Ok(last_name) => Ok(Person { first_name, last_name }),
                Err(mismatch) => Err(mismatch),
            },
            Err(mismatch) => Err(mismatch),
        }
    }
}

/// The document of a person stands for that person.
pub proof fn person_document_round_trip(person: PersonView)
    ensures
        Person::decoded(Person::encoded(person)) == Ok::<PersonView, Seq<char>>(person),
{
    reveal_strlit("first_name");
    reveal_strlit("last_name");
    assert("first_name"@ != "last_name"@) by {
        assert("first_name"@.len() != "last_name"@.len());
    }
}

/// The registry of [`Person`].
pub struct PersonComponents;

impl HasProvider for Person {
    type Provider = PersonComponents;
}

impl DelegateComponent<StringFormatterComponent> for PersonComponents {
    type Delegate = FormatAsJsonString;
}

impl<Context> IsProviderFor<StringFormatterComponent, Context> for PersonComponents where
    FormatAsJsonString: IsProviderFor<StringFormatterComponent, Context>,
 {
}

impl DelegateComponent<StringParserComponent> for PersonComponents {
    type Delegate = ParseFromJsonString;
}

impl<Context> IsProviderFor<StringParserComponent, Context> for PersonComponents where
    ParseFromJsonString: IsProviderFor<StringParserComponent, Context>,
 {
}

/// Holds where the registry of [`Person`] is wired as it is meant to be: a
/// person can be written as a string and read from one.
pub trait CanUsePerson: CanUseComponent<StringFormatterComponent> + CanUseComponent<
    StringParserComponent,
> {
}

impl CanUsePerson for Person {
}

/// Resolution: what a person does is what the providers do that its registry
/// names, whichever way the call goes.
pub proof fn person_resolves_to_json(person: Person, raw: Seq<char>)
    ensures
        person.formatted() == <FormatAsJsonString as StringFormatter<Person>>::formatted(&person),
        person.formatted() == <PersonComponents as StringFormatter<Person>>::formatted(&person),
        <Person as CanParseFromString>::parsed(raw) == <ParseFromJsonString as StringParser<
            Person,
        >>::parsed(raw),
        <Person as CanParseFromString>::parsed(raw) == <PersonComponents as StringParser<
            Person,
        >>::parsed(raw),
{
}

/// Reading a person is total: it gives the person that the document of the
/// text stands for, or a format failure without annotation, and nothing else.
/// The failure is that of the parser where the text is no JSON, and names the
/// member at fault where the document is of another shape.
pub proof fn reading_a_person_is_total(raw: Seq<char>)
    ensures
        match <Person as CanParseFromString>::parsed(raw) {
            Ok(person) => json_from_text(raw) is Ok && Person::decoded(json_from_text(raw)->Ok_0)
                == Ok::<PersonView, Seq<char>>(person),
            Err(failure) => {
                &&& failure.kind() == FailureKind::Format
                &&& failure.annotations.len() == 0
                &&& json_from_text(raw) matches Err(message) ==> failure.cause
                    == (CauseView::Json { message })
                &&& json_from_text(raw) matches Ok(doc) ==> Person::decoded(doc) == Err::<
                    PersonView,
                    Seq<char>,
                >(failure.cause->field)
            },
        },
{
}

/// Writing a person is total: it gives the text of the person's document, or
/// a format failure without annotation that keeps the line of the writer.
pub proof fn writing_a_person_is_total(person: Person)
    ensures
        match person.formatted() {
            Ok(text) => json_to_text(Person::encoded(person@)) == Ok::<Seq<char>, Seq<char>>(text),
            Err(failure) => json_to_text(Person::encoded(person@)) matches Err(message) && failure
                == raised(CauseView::Json { message }),
        },
{
}

/// A text that holds the document of a person reads as that person.
pub proof fn written_person_reads(person: PersonView, raw: Seq<char>)
    ensures
        json_from_text(raw) == Ok::<Json, Seq<char>>(Person::encoded(person)) ==> <
            Person as CanParseFromString
        >::parsed(raw) == Ok::<PersonView, FailureView>(person),
{
    person_document_round_trip(person);
}

} // verus!
