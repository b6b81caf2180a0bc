//! The component model, the intents that mutate it, and the reducer.
//!
//! A `Model<P>` is the observable state of one component instance: its named
//! text fields, the most recent decoded response payload of type `P`, the
//! most recent error message, and whether a request is outstanding. The only
//! way a model changes is through `reduce`, which interprets one `Intent`.

use vstd::prelude::*;
use vstd::pervasive::VecAdditionalExecFns;

verus! {

/// One named text field of a component's model.
#[derive(Debug, Clone, PartialEq)]
pub struct Field {
    pub name: String,
    pub value: String,
}

/// The observable state of one component instance, generic over the decoded
/// response payload type `P`.
#[derive(Debug, Clone, PartialEq)]
pub struct Model<P> {
    /// User-entered fields, keyed by field name. Names are kept distinct.
    pub fields: Vec<Field>,
    /// The most recently decoded successful response, if any.
    pub last_response: Option<P>,
    /// The most recent error message, if any.
    pub last_error: Option<String>,
    /// True between dispatching a request and its settlement.
    pub request_in_flight: bool,
}

/// An event that may mutate a model.
#[derive(Debug)]
pub enum Intent<P> {
    /// A text input changed: the field's name, and either the decoded new
    /// value or a decode-failure message.
    FieldChanged(String, Result<String, String>),
    /// The user asked for the component's network action.
    TriggerAction,
    /// The outstanding request settled with a decoded payload or an error.
    RequestCompleted(Result<P, String>),
}

/// What the host must do after a reduction step.
#[derive(Debug, Clone, Copy, PartialEq, Eq, Structural)]
pub struct Step {
    /// The model changed in a way the renderer should see.
    pub rerender: bool,
    /// Exactly one outbound request must be started.
    pub dispatch: bool,
}

/// The mathematical value of a `Model<P>`: fields as a map of character
/// sequences, strings as character sequences.
pub struct ModelView<P> {
    pub fields: Map<Seq<char>, Seq<char>>,
    pub last_response: Option<P>,
    pub last_error: Option<Seq<char>>,
    pub request_in_flight: bool,
}

/// The mathematical value of an `Intent<P>`.
pub enum IntentLabel<P> {
    FieldChanged(Seq<char>, Result<Seq<char>, Seq<char>>),
    TriggerAction,
    RequestCompleted(Result<P, Seq<char>>),
}

/// The character sequence denoted by an optional string.
pub open spec fn opt_str_view(v: Option<String>) -> Option<Seq<char>> {
    match v {
        Option::None => Option::None,
        Option::Some(s) => Option::Some(s@),
    }
}

/// The value a model's view holds for a named field, if any.
pub open spec fn field_of<P>(m: ModelView<P>, name: Seq<char>) -> Option<Seq<char>> {
    if m.fields.contains_key(name) {
        Option::Some(m.fields[name])
    } else {
        Option::None
    }
}

/// The field map denoted by a sequence of fields: later entries win, though
/// well-formed models keep the names distinct.
pub open spec fn fields_map(s: Seq<Field>) -> Map<Seq<char>, Seq<char>>
    decreases s.len(),
{
    if s.len() == 0 {
        Map::empty()
    } else {
        fields_map(s.drop_last()).insert(s.last().name@, s.last().value@)
    }
}

/// No two fields share a name.
pub open spec fn distinct_names(s: Seq<Field>) -> bool {
    forall|i: int, j: int| 0 <= i < j < s.len() ==> s[i].name@ != s[j].name@
}

impl<P> View for Model<P> {
    type V = ModelView<P>;

    open spec fn view(&self) -> ModelView<P> {
        ModelView {
            fields: fields_map(self.fields@),
            last_response: self.last_response,
            last_error: opt_str_view(self.last_error),
            request_in_flight: self.request_in_flight,
        }
    }
}

impl<P> View for Intent<P> {
    type V = IntentLabel<P>;

    open spec fn view(&self) -> IntentLabel<P> {
        match self {
            Intent::FieldChanged(name, res) => IntentLabel::FieldChanged(
                name@,
                match res {
                    Result::Ok(v) => Result::Ok(v@),
                    Result::Err(e) => Result::Err(e@),
                },
            ),
            Intent::TriggerAction => IntentLabel::TriggerAction,
            Intent::RequestCompleted(res) => IntentLabel::RequestCompleted(
                match res {
                    Result::Ok(p) => Result::Ok(*p),
                    Result::Err(e) => Result::Err(e@),
                },
            ),
        }
    }
}

/// The model every component starts from: no fields, no response, no error,
/// nothing in flight.
pub open spec fn init_view<P>() -> ModelView<P> {
    ModelView {
        fields: Map::empty(),
        last_response: Option::None,
        last_error: Option::None,
        request_in_flight: false,
    }
}

/// The transition table: what one intent does to a model, which steps ask
/// for a re-render, and which dispatch a request.
pub open spec fn spec_reduce<P>(m: ModelView<P>, intent: IntentLabel<P>) -> (ModelView<P>, Step) {
    match intent {
        IntentLabel::FieldChanged(name, res) => match res {
            Result::Ok(v) => (
                ModelView {
                    fields: m.fields.insert(name, v),
                    last_response: m.last_response,
                    last_error: m.last_error,
                    request_in_flight: m.request_in_flight,
                },
                Step { rerender: true, dispatch: false },
            ),
            Result::Err(e) => (
                ModelView {
                    fields: m.fields,
                    last_response: m.last_response,
                    last_error: Option::Some(e),
                    request_in_flight: m.request_in_flight,
                },
                Step { rerender: true, dispatch: false },
            ),
        },
        IntentLabel::TriggerAction => if m.request_in_flight {
            (m, Step { rerender: false, dispatch: false })
        } else {
            (
                ModelView {
                    fields: m.fields,
                    last_response: m.last_response,
                    last_error: m.last_error,
                    request_in_flight: true,
                },
                Step { rerender: true, dispatch: true },
            )
        },
        IntentLabel::RequestCompleted(res) => if !m.request_in_flight {
            (m, Step { rerender: false, dispatch: false })
        } else {
            match res {
                Result::Ok(r) => (
                    ModelView {
                        fields: m.fields,
                        last_response: Option::Some(r),
                        last_error: m.last_error,
                        request_in_flight: false,
                    },
                    Step { rerender: true, dispatch: false },
                ),
                Result::Err(e) => (
                    ModelView {
                        fields: m.fields,
                        last_response: m.last_response,
                        last_error: Option::Some(e),
                        request_in_flight: false,
                    },
                    Step { rerender: true, dispatch: false },
                ),
            }
        },
    }
}

proof fn lemma_fields_map_absent(s: Seq<Field>, n: Seq<char>)
    requires
        forall|j: int| 0 <= j < s.len() ==> s[j].name@ != n,
    ensures
        !fields_map(s).contains_key(n),
    decreases s.len(),
{
    if s.len() > 0 {
        assert(forall|j: int| 0 <= j < s.drop_last().len() ==> s.drop_last()[j].name@ != n);
        lemma_fields_map_absent(s.drop_last(), n);
        assert(s.last().name@ != n);
    }
}

proof fn lemma_fields_map_found(s: Seq<Field>, i: int)
    requires
        distinct_names(s),
        0 <= i < s.len(),
    ensures
        fields_map(s).contains_key(s[i].name@),
        fields_map(s)[s[i].name@] == s[i].value@,
    decreases s.len(),
{
    if i < s.len() - 1 {
        assert(distinct_names(s.drop_last()));
        lemma_fields_map_found(s.drop_last(), i);
        assert(s.last().name@ != s[i].name@);
    }
}

proof fn lemma_fields_map_update(s: Seq<Field>, i: int, f: Field)
    requires
        distinct_names(s),
        0 <= i < s.len(),
        s[i].name@ == f.name@,
    ensures
        fields_map(s.update(i, f)) =~= fields_map(s).insert(f.name@, f.value@),
    decreases s.len(),
{
    let su = s.update(i, f);
    if i == s.len() - 1 {
        assert(su.drop_last() =~= s.drop_last());
        assert(su.last() == f);
    } else {
        assert(su.drop_last() =~= s.drop_last().update(i, f));
        assert(su.last() == s.last());
        assert(distinct_names(s.drop_last()));
        lemma_fields_map_update(s.drop_last(), i, f);
        assert(s.last().name@ != f.name@);
        assert(fields_map(s.drop_last()).insert(f.name@, f.value@).insert(s.last().name@, s.last().value@)
            =~= fields_map(s.drop_last()).insert(s.last().name@, s.last().value@).insert(f.name@, f.value@));
    }
}

/// Set the field named `name` to `value`, keeping every other field as it
/// was; a name not present yet is added.
fn set_field(fields: &mut Vec<Field>, name: String, value: String)
    requires
        distinct_names(old(fields)@),
    ensures
        distinct_names(final(fields)@),
        fields_map(final(fields)@) == fields_map(old(fields)@).insert(name@, value@),
{
    let n = fields.len();
    let mut i: usize = 0;
    while i < n
        invariant
            n == fields.len(),
            i <= n,
            *fields == *old(fields),
            distinct_names(fields@),
            forall|j: int| 0 <= j < i ==> fields@[j].name@ != name@,
        decreases n - i,
    {
        if fields[i].name == name {
            let ghost old_seq = fields@;
            let ghost nv = name@;
            let f = Field { name, value };
            fields.set(i, f);
            proof {
                assert(f.name@ == old_seq[i as int].name@);
                lemma_fields_map_update(old_seq, i as int, f);
                assert(distinct_names(fields@));
            }
            return;
        }
        i += 1;
    }
    let ghost old_seq = fields@;
    let f = Field { name, value };
    fields.push(f);
    proof {
        lemma_fields_map_absent(old_seq, f.name@);
        assert(fields@.drop_last() =~= old_seq);
        assert(fields@.last() == f);
        assert(distinct_names(fields@));
    }
}

/// Read the value of the field named `name`, if it is present.
pub fn field_value(fields: &Vec<Field>, name: &String) -> (r: Option<String>)
    requires
        distinct_names(fields@),
    ensures
        match r {
            Option::Some(v) => fields_map(fields@).contains_key(name@)
                && fields_map(fields@)[name@] == v@,
            Option::None => !fields_map(fields@).contains_key(name@),
        },
{
    let n = fields.len();
    let mut i: usize = 0;
    while i < n
        invariant
            n == fields.len(),
            i <= n,
            distinct_names(fields@),
            forall|j: int| 0 <= j < i ==> fields@[j].name@ != name@,
        decreases n - i,
    {
        if fields[i].name == *name {
            let v = fields[i].value.clone();
            proof {
                lemma_fields_map_found(fields@, i as int);
            }
            return Option::Some(v);
        }
        i += 1;
    }
    proof {
        lemma_fields_map_absent(fields@, name@);
    }
    Option::None
}

impl<P> Model<P> {
    /// A model is well formed when its field names are distinct.
    pub open spec fn wf(&self) -> bool {
        distinct_names(self.fields@)
    }

    /// The initial model of a freshly created component.
    pub fn init() -> (m: Model<P>)
        ensures
            m@ == init_view::<P>(),
            m.wf(),
    {
        let m = Model {
            fields: Vec::new(),
            last_response: Option::None,
            last_error: Option::None,
            request_in_flight: false,
        };
        proof {
            assert(m.fields@.len() == 0);
            assert(m@.fields =~= init_view::<P>().fields);
        }
        m
    }

    /// The reducer: interpret one intent, returning the next model together
    /// with the re-render flag and the dispatch decision. This is the only
    /// way a model changes, and it follows `spec_reduce` exactly.
    pub fn reduce(self, intent: Intent<P>) -> (r: (Model<P>, Step))
        requires
            self.wf(),
        ensures
            r.0.wf(),
            r.0@ == spec_reduce(self@, intent@).0,
            r.1 == spec_reduce(self@, intent@).1,
    {
        let ghost pre = self@;
        let ghost label = intent@;
        let mut m = self;
        match intent {
            Intent::FieldChanged(name, res) => match res {
                Result::Ok(v) => {
                    set_field(&mut m.fields, name, v);
                    (m, Step { rerender: true, dispatch: false })
                },
                Result::Err(e) => {
                    m.last_error = Option::Some(e);
                    (m, Step { rerender: true, dispatch: false })
                },
            },
            Intent::TriggerAction => {
                if m.request_in_flight {
                    (m, Step { rerender: false, dispatch: false })
                } else {
                    m.request_in_flight = true;
                    (m, Step { rerender: true, dispatch: true })
                }
            },
            Intent::RequestCompleted(res) => {
                if !m.request_in_flight {
                    (m, Step { rerender: false, dispatch: false })
                } else {
                    m.request_in_flight = false;
                    match res {
                        Result::Ok(p) => {
                            m.last_response = Option::Some(p);
                        },
                        Result::Err(e) => {
                            m.last_error = Option::Some(e);
                        },
                    }
                    (m, Step { rerender: true, dispatch: false })
                }
            },
        }
    }
}

} // verus!
