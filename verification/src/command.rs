//! The closed set of commands that flows across the bus, and its
//! mathematical model.

use vstd::prelude::*;

verus! {

/// What a command means in specifications: the canvas it concerns as a
/// sequence of characters, and its raster payload as a sequence of bytes.
#[verifier::ext_equal]
pub enum CmdModel {
    Update { id: Seq<char>, data: Seq<u8> },
    Get { id: Seq<char> },
    Data { id: Seq<char>, data: Seq<u8> },
}

/// One message of the closed union carried by the bus.
///
/// `canvas_id` is an opaque, caller-supplied name; any string names a valid
/// canvas. `png_bytes` is an opaque raster blob, never inspected by the core.
#[derive(Debug, PartialEq)]
pub enum Command {
    UpdateCanvas { canvas_id: String, png_bytes: Vec<u8> },
    GetCanvas { canvas_id: String },
    CanvasData { canvas_id: String, png_bytes: Vec<u8> },
}

impl View for Command {
    type V = CmdModel;

    open spec fn view(&self) -> CmdModel {
        match self {
            Command::UpdateCanvas { canvas_id, png_bytes } => CmdModel::Update {
                id: canvas_id@,
                data: png_bytes@,
            },
            Command::GetCanvas { canvas_id } => CmdModel::Get { id: canvas_id@ },
            Command::CanvasData { canvas_id, png_bytes } => CmdModel::Data {
                id: canvas_id@,
                data: png_bytes@,
            },
        }
    }
}

pub open spec fn id_of(m: CmdModel) -> Seq<char> {
    match m {
        CmdModel::Update { id, .. } => id,
        CmdModel::Get { id } => id,
        CmdModel::Data { id, .. } => id,
    }
}

pub open spec fn data_of(m: CmdModel) -> Seq<u8> {
    match m {
        CmdModel::Update { data, .. } => data,
        CmdModel::Get { .. } => Seq::empty(),
        CmdModel::Data { data, .. } => data,
    }
}

pub open spec fn is_update(m: CmdModel) -> bool {
    m is Update
}

pub open spec fn is_get(m: CmdModel) -> bool {
    m is Get
}

pub open spec fn is_data(m: CmdModel) -> bool {
    m is Data
}

/// A command that a session subscribed to canvas `id` forwards to its
/// transport: an update or a snapshot announcement for that very canvas.
pub open spec fn is_delivery_for(m: CmdModel, id: Seq<char>) -> bool {
    (is_update(m) || is_data(m)) && id_of(m) == id
}

/// A byte-for-byte copy of a payload blob.
pub fn clone_bytes(src: &Vec<u8>) -> (r: Vec<u8>)
    ensures
        r@ == src@,
{
    let mut r: Vec<u8> = Vec::new();
    let mut i: usize = 0;
    while i < src.len()
        invariant
            i <= src.len(),
            r@ == src@.subrange(0, i as int),
        decreases src.len() - i,
    {
        r.push(src[i]);
        i = i + 1;
        proof {
            assert(r@ =~= src@.subrange(0, i as int));
        }
    }
    proof {
        assert(r@ =~= src@);
    }
    r
}

impl Command {
    /// An equal copy of the command; every consumer of a bus delivery gets
    /// its own.
    pub fn duplicate(&self) -> (c: Command)
        ensures
            c@ == self@,
    {
        match self {
            Command::UpdateCanvas { canvas_id, png_bytes } => Command::UpdateCanvas {
                canvas_id: canvas_id.clone(),
                png_bytes: clone_bytes(png_bytes),
            },
            Command::GetCanvas { canvas_id } => Command::GetCanvas {
                canvas_id: canvas_id.clone(),
            },
            Command::CanvasData { canvas_id, png_bytes } => Command::CanvasData {
                canvas_id: canvas_id.clone(),
                png_bytes: clone_bytes(png_bytes),
            },
        }
    }
}

} // verus!
