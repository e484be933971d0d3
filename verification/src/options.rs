//! The configuration of a line request, built step by step.
//!
//! The direction of a request is part of its type: edge detection can only
//! be chosen for an input request, drive mode and initial values only for
//! an output request.

use crate::error::{Error, ErrorKind};
use crate::values::{LineId, Values, MAX_VALUES};
use core::marker::PhantomData;
use vstd::prelude::*;
use vstd::string::StringSliceAdditionalSpecFns;

verus! {

/// Whether lines are read or driven.
#[derive(Clone, Copy, Debug, PartialEq, Eq, Structural)]
pub enum Direction {
    Input,
    Output,
}

/// Which electrical level counts as active.
#[derive(Clone, Copy, Debug, PartialEq, Eq, Structural)]
pub enum Active {
    Low,
    High,
}

/// The kind of one signal transition.
#[derive(Clone, Copy, Debug, PartialEq, Eq, Structural)]
pub enum Edge {
    Rising,
    Falling,
}

/// Which signal transitions the kernel reports.
#[derive(Clone, Copy, Debug, PartialEq, Eq, Structural)]
pub enum EdgeDetect {
    Disable,
    Rising,
    Falling,
    Both,
}

/// The termination of an input.
#[derive(Clone, Copy, Debug, PartialEq, Eq, Structural)]
pub enum Bias {
    Disable,
    PullUp,
    PullDown,
}

/// How an output is driven.
#[derive(Clone, Copy, Debug, PartialEq, Eq, Structural)]
pub enum Drive {
    PushPull,
    OpenDrain,
    OpenSource,
}

/// A marker type that stands for one direction.
pub trait DirectionType {
    /// The direction the marker stands for.
    spec fn direction_spec() -> Direction;

    /// The direction the marker stands for.
    fn direction() -> (direction: Direction)
        ensures
            direction == Self::direction_spec(),
    ;
}

/// Marks a request whose lines are read.
pub struct Input;

/// Marks a request whose lines are driven.
pub struct Output;

impl DirectionType for Input {
    open spec fn direction_spec() -> Direction {
        Direction::Input
    }

    fn direction() -> (direction: Direction) {
        Direction::Input
    }
}

impl DirectionType for Output {
    open spec fn direction_spec() -> Direction {
        Direction::Output
    }

    fn direction() -> (direction: Direction) {
        Direction::Output
    }
}

/// What a set of options holds.
pub ghost struct OptionsView {
    pub lines: Seq<LineId>,
    pub active: Active,
    pub edge: Option<EdgeDetect>,
    pub bias: Option<Bias>,
    pub drive: Option<Drive>,
    pub values: Option<Values>,
    pub consumer: Seq<u8>,
}

/// The options a fresh request starts from: active high, nothing else chosen.
pub open spec fn initial_options(lines: Seq<LineId>) -> OptionsView {
    OptionsView {
        lines,
        active: Active::High,
        edge: None,
        bias: None,
        drive: None,
        values: None,
        consumer: Seq::<u8>::empty(),
    }
}

/// The configuration of one line request in direction `D`.
///
/// It never names more lines than one request can address.
pub struct Options<D> {
    lines: Vec<LineId>,
    direction: PhantomData<D>,
    active: Active,
    edge: Option<EdgeDetect>,
    bias: Option<Bias>,
    drive: Option<Drive>,
    values: Option<Values>,
    consumer: Vec<u8>,
}

impl<D> View for Options<D> {
    type V = OptionsView;

    closed spec fn view(&self) -> OptionsView {
        OptionsView {
            lines: self.lines@,
            active: self.active,
            edge: self.edge,
            bias: self.bias,
            drive: self.drive,
            values: self.values,
            consumer: self.consumer@,
        }
    }
}

impl<D> Options<D> {
    #[verifier::type_invariant]
    spec fn line_count_fits(self) -> bool {
        self.lines@.len() <= 64
    }

    fn start(lines: &[LineId]) -> (r: Result<Options<D>, Error>)
        ensures
            lines@.len() > 64 <==> r is Err,
            r matches Err(e) ==> e == Error::TooManyValues,
            r matches Ok(options) ==> options@ == initial_options(lines@),
    {
        if lines.len() > MAX_VALUES {
            return Err(Error::TooManyValues);
        }
        Ok(
            Options {
                lines: vstd::slice::slice_to_vec(lines),
                direction: PhantomData,
                active: Active::High,
                edge: None,
                bias: None,
                drive: None,
                values: None,
                consumer: Vec::new(),
            },
        )
    }

    /// Chooses which level counts as active.
    pub fn active(self, active: Active) -> (next: Options<D>)
        ensures
            next@ == (OptionsView { active, ..self@ }),
    {
        proof {
            use_type_invariant(&self);
        }
        Options {
            lines: self.lines,
            direction: PhantomData,
            active,
            edge: self.edge,
            bias: self.bias,
            drive: self.drive,
            values: self.values,
            consumer: self.consumer,
        }
    }

    /// Chooses the bias.
    pub fn bias(self, bias: Bias) -> (next: Options<D>)
        ensures
            next@ == (OptionsView { bias: Some(bias), ..self@ }),
    {
        proof {
            use_type_invariant(&self);
        }
        Options {
            lines: self.lines,
            direction: PhantomData,
            active: self.active,
            edge: self.edge,
            bias: Some(bias),
            drive: self.drive,
            values: self.values,
            consumer: self.consumer,
        }
    }

    /// Chooses the label under which the kernel lists the request; it is
    /// kept as the bytes of the text.
    pub fn consumer(self, consumer: &str) -> (next: Options<D>)
        ensures
            next@ == (OptionsView { consumer: consumer.spec_bytes(), ..self@ }),
    {
        proof {
            use_type_invariant(&self);
        }
        Options {
            lines: self.lines,
            direction: PhantomData,
            active: self.active,
            edge: self.edge,
            bias: self.bias,
            drive: self.drive,
            values: self.values,
            consumer: vstd::slice::slice_to_vec(consumer.as_bytes()),
        }
    }

    /// A copy that shares nothing with `self`.
    pub fn to_owned(&self) -> (copy: Options<D>)
        ensures
            copy@ == self@,
    {
        proof {
            use_type_invariant(self);
        }
        Options {
            lines: self.lines.clone(),
            direction: PhantomData,
            active: self.active,
            edge: self.edge,
            bias: self.bias,
            drive: self.drive,
            values: self.values,
            consumer: self.consumer.clone(),
        }
    }

    /// The line offsets, in the order of the request's positions.
    pub fn lines(&self) -> (lines: &[LineId])
        ensures
            lines@ == self@.lines,
            lines@.len() <= 64,
    {
        proof {
            use_type_invariant(self);
        }
        self.lines.as_slice()
    }

    pub fn get_active(&self) -> (active: Active)
        ensures
            active == self@.active,
    {
        self.active
    }

    pub fn get_edge(&self) -> (edge: Option<EdgeDetect>)
        ensures
            edge == self@.edge,
    {
        self.edge
    }

    pub fn get_bias(&self) -> (bias: Option<Bias>)
        ensures
            bias == self@.bias,
    {
        self.bias
    }

    pub fn get_drive(&self) -> (drive: Option<Drive>)
        ensures
            drive == self@.drive,
    {
        self.drive
    }

    pub fn get_values(&self) -> (values: Option<Values>)
        ensures
            values == self@.values,
    {
        self.values
    }

    pub fn get_consumer(&self) -> (consumer: &[u8])
        ensures
            consumer@ == self@.consumer,
    {
        self.consumer.as_slice()
    }
}

impl Options<Input> {
    /// Options for reading `lines`.
    ///
    /// Fails, with an error of kind [`ErrorKind::InvalidArgument`], exactly
    /// when there are more lines than one request can address.
    pub fn input(lines: &[LineId]) -> (r: Result<Options<Input>, Error>)
        ensures
            lines@.len() > 64 <==> r is Err,
            r matches Err(e) ==> e == Error::TooManyValues && e.kind_spec()
                == ErrorKind::InvalidArgument,
            r matches Ok(options) ==> options@ == initial_options(lines@),
    {
        Options::<Input>::start(lines)
    }

    /// Chooses which transitions are reported.
    pub fn edge(self, edge: EdgeDetect) -> (next: Options<Input>)
        ensures
            next@ == (OptionsView { edge: Some(edge), ..self@ }),
    {
        proof {
            use_type_invariant(&self);
        }
        Options {
            lines: self.lines,
            direction: PhantomData,
            active: self.active,
            edge: Some(edge),
            bias: self.bias,
            drive: self.drive,
            values: self.values,
            consumer: self.consumer,
        }
    }
}

impl Options<Output> {
    /// Options for driving `lines`.
    ///
    /// Fails, with an error of kind [`ErrorKind::InvalidArgument`], exactly
    /// when there are more lines than one request can address.
    pub fn output(lines: &[LineId]) -> (r: Result<Options<Output>, Error>)
        ensures
            lines@.len() > 64 <==> r is Err,
            r matches Err(e) ==> e == Error::TooManyValues && e.kind_spec()
                == ErrorKind::InvalidArgument,
            r matches Ok(options) ==> options@ == initial_options(lines@),
    {
        Options::<Output>::start(lines)
    }

    /// Chooses how the outputs are driven.
    pub fn drive(self, drive: Drive) -> (next: Options<Output>)
        ensures
            next@ == (OptionsView { drive: Some(drive), ..self@ }),
    {
        proof {
            use_type_invariant(&self);
        }
        Options {
            lines: self.lines,
            direction: PhantomData,
            active: self.active,
            edge: self.edge,
            bias: self.bias,
            drive: Some(drive),
            values: self.values,
            consumer: self.consumer,
        }
    }

    /// Chooses the values the outputs take when the request is granted.
    pub fn values(self, values: Values) -> (next: Options<Output>)
        ensures
            next@ == (OptionsView { values: Some(values), ..self@ }),
    {
        proof {
            use_type_invariant(&self);
        }
        Options {
            lines: self.lines,
            direction: PhantomData,
            active: self.active,
            edge: self.edge,
            bias: self.bias,
            drive: self.drive,
            values: Some(values),
            consumer: self.consumer,
        }
    }
}

} // verus!
