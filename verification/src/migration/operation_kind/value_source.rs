//! Values that are put together from places in a JSON value.
use crate::json::{json_member_models, json_models, JsonModel, JsonValue};
use crate::migration::json_path::{resolve_from, JsonPath, JsonPathError, PathErrorModel};
use vstd::prelude::*;

verus! {

/// Why a source gave no value.
#[derive(Debug, PartialEq)]
pub enum ValueSourceError {
    /// A path of the source could not be followed.
    PathError(JsonPathError),
}

impl View for ValueSourceError {
    type V = PathErrorModel;

    /// The model is that of the path error inside.
    open spec fn view(&self) -> PathErrorModel {
        match *self {
            ValueSourceError::PathError(error) => error@,
        }
    }
}

impl From<JsonPathError> for ValueSourceError {
    /// A path that could not be followed, as a reason why a source gave no
    /// value.
    fn from(value: JsonPathError) -> (made: Self) {
        ValueSourceError::PathError(value)
    }
}

impl vstd::std_specs::convert::FromSpecImpl<JsonPathError> for ValueSourceError {
    open spec fn obeys_from_spec() -> bool {
        true
    }

    open spec fn from_spec(value: JsonPathError) -> Self {
        ValueSourceError::PathError(value)
    }
}

/// Where a value comes from: a place in a JSON value, or an array or an
/// object of such sources.
#[derive(Debug, PartialEq)]
pub enum ValueSource {
    Path(JsonPath),
    Array(Vec<ValueSource>),
    /// The members of the object to make, in order.
    Object(Vec<(String, ValueSource)>),
}

/// The mathematical model of a [`ValueSource`].
pub enum SourceModel {
    Path(Seq<Seq<char>>),
    Array(Seq<SourceModel>),
    Object(Seq<(Seq<char>, SourceModel)>),
}

/// The model of each source of a list, in order.
pub open spec fn source_models(sources: Seq<ValueSource>) -> Seq<SourceModel>
    decreases sources, 0int,
{
    Seq::new(
        sources.len(),
        |i: int|
            if 0 <= i < sources.len() {
                source_model(sources[i])
            } else {
                SourceModel::Array(Seq::empty())
            },
    )
}

/// The model of each member of an object of sources, in order.
pub open spec fn source_member_models(members: Seq<(String, ValueSource)>) -> Seq<
    (Seq<char>, SourceModel),
>
    decreases members, 0int,
{
    Seq::new(
        members.len(),
        |i: int|
            if 0 <= i < members.len() {
                (members[i].0@, source_model(members[i].1))
            } else {
                (Seq::empty(), SourceModel::Array(Seq::empty()))
            },
    )
}

/// The model of a source.
pub open spec fn source_model(source: ValueSource) -> SourceModel
    decreases source, 1int,
{
    match source {
        ValueSource::Path(path) => SourceModel::Path(path@),
        ValueSource::Array(sources) => SourceModel::Array(source_models(sources@)),
        ValueSource::Object(members) => SourceModel::Object(source_member_models(members@)),
    }
}

impl View for ValueSource {
    type V = SourceModel;

    open spec fn view(&self) -> SourceModel {
        source_model(*self)
    }
}

/// The values of the sources of a list from position `from` on, or the
/// error of the first that gives none.
pub open spec fn source_values_from(sources: Seq<SourceModel>, target: JsonModel, from: int)
    -> Result<Seq<JsonModel>, PathErrorModel>
    decreases sources, 0int, sources.len() - from,
{
    if from < 0 || from >= sources.len() {
        Ok(Seq::empty())
    } else {
        match source_value(sources[from], target) {
            Err(error) => Err(error),
            Ok(value) => match source_values_from(sources, target, from + 1) {
                Err(error) => Err(error),
                Ok(rest) => Ok(seq![value] + rest),
            },
        }
    }
}

/// The members that the sources of an object from position `from` on give,
/// or the error of the first that gives none.
pub open spec fn source_members_from(
    members: Seq<(Seq<char>, SourceModel)>,
    target: JsonModel,
    from: int,
) -> Result<Seq<(Seq<char>, JsonModel)>, PathErrorModel>
    decreases members, 0int, members.len() - from,
{
    if from < 0 || from >= members.len() {
        Ok(Seq::empty())
    } else {
        match source_value(members[from].1, target) {
            Err(error) => Err(error),
            Ok(value) => match source_members_from(members, target, from + 1) {
                Err(error) => Err(error),
                Ok(rest) => Ok(seq![(members[from].0, value)] + rest),
            },
        }
    }
}

/// The value that a source gives for a target: the value at its path, or
/// the array or the object of what its sources give.
pub open spec fn source_value(source: SourceModel, target: JsonModel) -> Result<
    JsonModel,
    PathErrorModel,
>
    decreases source, 0int, 0int,
{
    match source {
        SourceModel::Path(parts) => resolve_from(parts, target, 0),
        SourceModel::Array(sources) => match source_values_from(sources, target, 0) {
            Ok(values) => Ok(JsonModel::Array(values)),
            Err(error) => Err(error),
        },
        SourceModel::Object(members) => match source_members_from(members, target, 0) {
            Ok(values) => Ok(JsonModel::Object(values)),
            Err(error) => Err(error),
        },
    }
}

/// What a source gave, against what the model says.
pub open spec fn gives_as(
    given: Result<JsonValue, ValueSourceError>,
    expected: Result<JsonModel, PathErrorModel>,
) -> bool {
    match given {
        Ok(value) => expected == Ok::<JsonModel, PathErrorModel>(value@),
        Err(error) => expected == Err::<JsonModel, PathErrorModel>(error@),
    }
}

/// What the values read so far and those still to read give together.
pub open spec fn joined<T>(read: Seq<T>, rest: Result<Seq<T>, PathErrorModel>) -> Result<
    Seq<T>,
    PathErrorModel,
> {
    match rest {
        Ok(more) => Ok(read + more),
        Err(error) => Err(error),
    }
}

impl ValueSource {
    /// Makes the value of this source from a target. The first path that
    /// cannot be followed gives the error.
    #[verifier::loop_isolation(false)]
    pub fn resolve(&self, target: &JsonValue) -> (given: Result<JsonValue, ValueSourceError>)
        ensures
            gives_as(given, source_value(self@, target@)),
        decreases self,
    {
        match self {
            ValueSource::Path(path) => match path.resolve(target) {
                Ok(found) => Ok(found.clone()),
                Err(error) => Err(ValueSourceError::PathError(error)),
            },
            ValueSource::Array(sources) => {
                let ghost models = source_models(sources@);
                let mut values: Vec<JsonValue> = Vec::new();
                let mut i: usize = 0;
                while i < sources.len()
                    invariant
                        i <= sources.len(),
                        values@.len() == i,
                        models == source_models(sources@),
                        self@ == SourceModel::Array(models),
                        source_values_from(models, target@, 0) == joined(
                            json_models(values@),
                            source_values_from(models, target@, i as int),
                        ),
                    decreases sources.len() - i,
                {
                    let ghost before = json_models(values@);
                    match sources[i].resolve(target) {
                        Ok(value) => {
                            values.push(value);
                            proof {
                                let rest = source_values_from(models, target@, i + 1);
                                assert(json_models(values@) =~= before.push(value@));
                                if rest is Ok {
                                    assert(before + (seq![value@] + rest->Ok_0) =~= before.push(
                                        value@,
                                    ) + rest->Ok_0);
                                }
                            }
                        },
                        Err(error) => {
                            return Err(error);
                        },
                    }
                    i += 1;
                }
                Ok(JsonValue::Array(values))
            },
            ValueSource::Object(members) => {
                let ghost models = source_member_models(members@);
                let mut values: Vec<(String, JsonValue)> = Vec::new();
                let mut i: usize = 0;
                while i < members.len()
                    invariant
                        i <= members.len(),
                        values@.len() == i,
                        models == source_member_models(members@),
                        self@ == SourceModel::Object(models),
                        source_members_from(models, target@, 0) == joined(
                            json_member_models(values@),
                            source_members_from(models, target@, i as int),
                        ),
                    decreases members.len() - i,
                {
                    let ghost before = json_member_models(values@);
                    match members[i].1.resolve(target) {
                        Ok(value) => {
                            let key = members[i].0.clone();
                            values.push((key, value));
                            proof {
                                let rest = source_members_from(models, target@, i + 1);
                                let member = (models[i as int].0, value@);
                                assert(json_member_models(values@) =~= before.push(
                                    member,
                                ));
                                if rest is Ok {
                                    assert(before + (seq![member] + rest->Ok_0) =~= before.push(
                                        member,
                                    ) + rest->Ok_0);
                                }
                            }
                        },
                        Err(error) => {
                            return Err(error);
                        },
                    }
                    i += 1;
                }
                Ok(JsonValue::Object(values))
            },
        }
    }
}

} // verus!
