//! Composing callables: the pipeline builder that Python drives step by
//! step, and the run configuration a callable can be wrapped with.

use vstd::prelude::*;

use crate::json::{entry_models_of, Json, JsonValue};

verus! {

/// One stage of a pipeline over callables of type `C`.
pub enum Stage<C> {
    /// Run the callable on the current value.
    Then(C),
    /// Run the callable and add its result to the current object under a key.
    Assign(String, C),
    /// Run several named callables in parallel.
    FanOut(Vec<(String, C)>),
    /// Pass the value on unchanged.
    Passthrough,
}

/// A pipeline under construction; once built it takes no further stages.
pub struct PyPipeline<C> {
    builder: Option<Vec<Stage<C>>>,
}

/// The only way a pipeline builder refuses a call: it was built already.
#[derive(Debug, PartialEq, Eq, Structural)]
pub enum PipelineError {
    AlreadyBuilt,
}

impl<C> PyPipeline<C> {
    /// The stages so far, or `None` once the pipeline was built.
    pub closed spec fn stages(&self) -> Option<Seq<Stage<C>>> {
        match self.builder {
            Some(v) => Some(v@),
            None => None,
        }
    }

    /// A pipeline whose first stage runs `c`.
    pub fn from_(c: C) -> (r: Self)
        ensures
            r.stages() == Some(seq![Stage::Then(c)]),
    {
        let mut v: Vec<Stage<C>> = Vec::new();
        v.push(Stage::Then(c));
        PyPipeline { builder: Some(v) }
    }

    fn add(&mut self, s: Stage<C>) -> (r: Result<(), PipelineError>)
        ensures
            match old(self).stages() {
                Some(st) => r is Ok && final(self).stages() == Some(st.push(s)),
                None => r == Err::<(), PipelineError>(PipelineError::AlreadyBuilt) && final(self).stages() is None,
            },
    {
        match self.builder.take() {
            Some(mut v) => {
                v.push(s);
                self.builder = Some(v);
                Ok(())
            },
            None => Err(PipelineError::AlreadyBuilt),
        }
    }

    /// Chains another stage.
    pub fn then(&mut self, c: C) -> (r: Result<(), PipelineError>)
        ensures
            match old(self).stages() {
                Some(st) => r is Ok && final(self).stages() == Some(st.push(Stage::Then(c))),
                None => r == Err::<(), PipelineError>(PipelineError::AlreadyBuilt) && final(self).stages() is None,
            },
    {
        self.add(Stage::Then(c))
    }

    /// Adds the result of `c` to the current object under `key`.
    pub fn assign(&mut self, key: String, c: C) -> (r: Result<(), PipelineError>)
        ensures
            match old(self).stages() {
                Some(st) => r is Ok && final(self).stages() == Some(st.push(Stage::Assign(key, c))),
                None => r == Err::<(), PipelineError>(PipelineError::AlreadyBuilt) && final(self).stages() is None,
            },
    {
        self.add(Stage::Assign(key, c))
    }

    /// Adds a parallel stage over the named callables.
    pub fn fan_out_with(&mut self, branches: Vec<(String, C)>) -> (r: Result<(), PipelineError>)
        ensures
            match old(self).stages() {
                Some(st) => r is Ok && final(self).stages() == Some(st.push(Stage::FanOut(branches))),
                None => r == Err::<(), PipelineError>(PipelineError::AlreadyBuilt) && final(self).stages() is None,
            },
    {
        self.add(Stage::FanOut(branches))
    }

    /// Chains an identity stage.
    pub fn passthrough(&mut self) -> (r: Result<(), PipelineError>)
        ensures
            match old(self).stages() {
                Some(st) => r is Ok && final(self).stages() == Some(st.push(Stage::Passthrough)),
                None => r == Err::<(), PipelineError>(PipelineError::AlreadyBuilt) && final(self).stages() is None,
            },
    {
        self.add(Stage::Passthrough)
    }

    /// Freezes the pipeline: hands out its stages, after which the builder
    /// refuses every call.
    pub fn build(&mut self) -> (r: Result<Vec<Stage<C>>, PipelineError>)
        ensures
            final(self).stages() is None,
            match old(self).stages() {
                Some(st) => r matches Ok(v) && v@ == st,
                None => r == Err::<Vec<Stage<C>>, PipelineError>(PipelineError::AlreadyBuilt),
            },
    {
        match self.builder.take() {
            Some(v) => Ok(v),
            None => Err(PipelineError::AlreadyBuilt),
        }
    }
}

/// Which way a branch goes for one input: the predicate's truth value,
/// or, when the predicate could not be asked or answered with no truth
/// value (`None`), the false side.
pub fn branch_taken(predicate: Option<bool>) -> (r: bool)
    ensures
        r == (predicate == Some(true)),
{
    match predicate {
        Some(b) => b,
        None => false,
    }
}

/// How a callable run is labelled.
pub struct RunConfig {
    pub run_name: Option<String>,
    pub tags: Vec<String>,
    pub metadata: Vec<(String, JsonValue)>,
}

/// Metadata that is neither a dict nor `None`.
#[derive(Debug, PartialEq, Eq, Structural)]
pub enum ConfigError {
    MetadataNotADict,
}

/// The run configuration of `with_config`: missing tags are none, missing
/// (or `null`) metadata is empty, and metadata must otherwise be an object.
pub fn run_config(run_name: Option<String>, tags: Option<Vec<String>>, metadata: Option<&JsonValue>) -> (r: Result<
    RunConfig,
    ConfigError,
>)
    ensures
        match r {
            Ok(c) => {
                &&& c.run_name == run_name
                &&& c.tags@ == match tags {
                    Some(t) => t@,
                    None => Seq::<String>::empty(),
                }
                &&& match metadata {
                    Some(m) => match m@ {
                        Json::Object(es) => entry_models_of(c.metadata@) == es,
                        Json::Null => c.metadata@.len() == 0,
                        _ => false,
                    },
                    None => c.metadata@.len() == 0,
                }
            },
            Err(_) => metadata matches Some(m) && !(m@ is Object) && !(m@ is Null),
        },
{
    let meta: Vec<(String, JsonValue)> = match metadata {
        Some(m) => match m {
            JsonValue::Null => Vec::new(),
            JsonValue::Object(_) => match m.deep_clone() {
                JsonValue::Object(es) => es,
                _ => Vec::new(),
            },
            _ => return Err(ConfigError::MetadataNotADict),
        },
        None => Vec::new(),
    };
    let tags = match tags {
        Some(t) => t,
        None => Vec::new(),
    };
    Ok(RunConfig { run_name, tags, metadata: meta })
}

} // verus!
