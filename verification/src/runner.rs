//! From a request to a run: the program is the data of the cell that the
//! request names, and the context holds what the request sets.

use crate::cell::{LiveCell, LiveCellView, OutPoint, Script, Transaction};
use crate::codec::hex_of;
use crate::error::{Error, ErrorView};
use crate::ssri_vm::{argv, Context};
use crate::types::{CellOutputWithData, Hex};
use vstd::prelude::*;

verus! {

/// What a client is told when the chain has no cell at the place it named.
pub const CELL_NOT_FOUND: &'static str = "Cell not found";

/// What a client is told when the cell it named has no data.
pub const CELL_WITHOUT_DATA: &'static str = "Cell doesn't have data";

/// How much of the chain's state a request sets for the guest to read.
#[derive(Debug)]
pub enum Level {
    /// Nothing but the program.
    Code,
    /// The script that runs.
    Script(Script),
    /// The cell that the script belongs to.
    Cell(CellOutputWithData),
    /// The transaction that the cell is part of.
    Tx(Transaction),
}

impl Level {
    /// The context of a run at this level: what the level sets and nothing
    /// else, with no result published.
    pub fn context(self) -> (context: Context)
        ensures
            context.content is None,
            context.script == (match self {
                Level::Script(script) => Some(script),
                _ => None,
            }),
            context.cell == (match self {
                Level::Cell(cell) => Some(cell),
                _ => None,
            }),
            context.tx == (match self {
                Level::Tx(tx) => Some(tx),
                _ => None,
            }),
    {
        match self {
            Level::Code => Context::new(None, None, None),
            Level::Script(script) => Context::new(Some(script), None, None),
            Level::Cell(cell) => Context::new(None, Some(cell), None),
            Level::Tx(tx) => Context::new(None, None, Some(tx)),
        }
    }
}

/// The place of the cell that holds the program.
pub fn program_location(tx_hash: [u8; 32], index: u32) -> (out_point: OutPoint)
    ensures
        out_point.tx_hash == tx_hash,
        out_point.index == index,
{
    OutPoint { tx_hash, index }
}

/// The program that the chain's answer holds, or why the request cannot be
/// run.
pub open spec fn program_spec(found: Option<LiveCellView>) -> Result<Seq<u8>, ErrorView> {
    match found {
        None => Err(ErrorView::InvalidRequest(CELL_NOT_FOUND@)),
        Some(cell) => match cell.data {
            None => Err(ErrorView::InvalidRequest(CELL_WITHOUT_DATA@)),
            Some(data) => Ok(data),
        },
    }
}

/// A program with both sides seen as the contracts see them.
pub open spec fn program_view(r: Result<Vec<u8>, Error>) -> Result<Seq<u8>, ErrorView> {
    match r {
        Ok(program) => Ok(program@),
        Err(e) => Err(e@),
    }
}

/// Takes the program out of the chain's answer.
pub fn program_of(found: Option<LiveCell>) -> (r: Result<Vec<u8>, Error>)
    ensures
        program_view(r) == program_spec(
            match found {
                Some(cell) => Some(cell@),
                None => None,
            },
        ),
{
    match found {
        None => Err(Error::InvalidRequest(CELL_NOT_FOUND)),
        Some(cell) => match cell.data {
            None => Err(Error::InvalidRequest(CELL_WITHOUT_DATA)),
            Some(data) => Ok(data),
        },
    }
}

/// All that a run needs: the program, the guest's argument vector and the
/// context.
#[derive(Debug)]
pub struct Launch {
    pub program: Vec<u8>,
    pub argv: Vec<Vec<u8>>,
    pub context: Context,
}

/// Prepares a run from the chain's answer and the request. It fails where
/// the answer holds no program, and only there.
pub fn launch(found: Option<LiveCell>, args: &Vec<Hex>, context: Context) -> (r: Result<
    Launch,
    Error,
>)
    ensures
        match r {
            Ok(launch) => {
                &&& program_spec(
                    match found {
                        Some(cell) => Some(cell@),
                        None => None,
                    },
                ) == Ok::<Seq<u8>, ErrorView>(launch.program@)
                &&& launch.argv@.len() == args@.len()
                &&& forall|i: int|
                    0 <= i < args@.len() ==> (#[trigger] launch.argv@[i])@ == hex_of(args@[i]@)
                &&& launch.context == context
            },
            Err(e) => program_spec(
                match found {
                    Some(cell) => Some(cell@),
                    None => None,
                },
            ) == Err::<Seq<u8>, ErrorView>(e@),
        },
{
    match program_of(found) {
        Ok(program) => Ok(Launch { program, argv: argv(args), context }),
        Err(e) => Err(e),
    }
}

} // verus!
