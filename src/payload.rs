use vstd::prelude::*;

verus! {

/// The value of one field of an event payload.
#[derive(Clone, Debug, PartialEq, Eq)]
pub enum FieldValue {
    Null,
    Bool(bool),
    Number(i64),
    Text(String),
    /// A nested array or object; its contents are never read.
    Composite,
}

/// One named field of an object payload.
#[derive(Clone, Debug, PartialEq, Eq)]
pub struct PayloadField {
    pub name: String,
    pub value: FieldValue,
}

/// A weakly typed event payload, as the native control hands it over.
#[derive(Clone, Debug, PartialEq, Eq)]
pub enum Payload {
    Null,
    Bool(bool),
    Number(i64),
    Text(String),
    Object(Vec<PayloadField>),
}

/// The value of the first field called `name`, if any.
pub open spec fn lookup(fields: Seq<PayloadField>, name: Seq<char>) -> Option<FieldValue>
    decreases fields.len(),
{
    if fields.len() == 0 {
        None
    } else if fields[0].name@ == name {
        Some(fields[0].value)
    } else {
        lookup(fields.drop_first(), name)
    }
}

/// The integer held by the field `name` of an object payload.
pub open spec fn number_field(p: Payload, name: Seq<char>) -> Option<i64> {
    match p {
        Payload::Object(fields) => match lookup(fields@, name) {
            Some(FieldValue::Number(n)) => Some(n),
            _ => None,
        },
        _ => None,
    }
}

proof fn lemma_lookup_step(fields: Seq<PayloadField>, i: int, name: Seq<char>)
    requires
        0 <= i < fields.len(),
        fields[i].name@ != name,
    ensures
        lookup(fields.subrange(i, fields.len() as int), name) == lookup(
            fields.subrange(i + 1, fields.len() as int),
            name,
        ),
{
    let rest = fields.subrange(i, fields.len() as int);
    assert(rest.drop_first() =~= fields.subrange(i + 1, fields.len() as int));
}

/// Finds the first field called `name` among `fields`.
pub fn find_field<'a>(fields: &'a Vec<PayloadField>, name: &str) -> (r: Option<&'a FieldValue>)
    ensures
        r == match lookup(fields@, name@) {
            Some(v) => Some(&v),
            None => None::<&FieldValue>,
        },
{
    let key: String = name.to_owned();
    let mut i: usize = 0;
    assert(fields@.subrange(0, fields@.len() as int) =~= fields@);
    while i < fields.len()
        invariant
            0 <= i <= fields@.len(),
            key@ == name@,
            lookup(fields@, name@) == lookup(fields@.subrange(i as int, fields@.len() as int), name@),
        decreases fields@.len() - i,
    {
        if fields[i].name == key {
            return Some(&fields[i].value);
        }
        proof {
            lemma_lookup_step(fields@, i as int, name@);
        }
        i = i + 1;
    }
    None
}

impl Payload {
    /// The integer held by the field `name`, when the payload is an object
    /// whose first field of that name holds a number.
    pub fn number(&self, name: &str) -> (r: Option<i64>)
        ensures
            r == number_field(*self, name@),
    {
        match self {
            Payload::Object(fields) => match find_field(fields, name) {
                Some(FieldValue::Number(n)) => Some(*n),
                _ => None,
            },
            _ => None,
        }
    }
}

} // verus!
