//! Growable bytecode chunk of the scripting prototype.
use vstd::prelude::*;

verus! {

/// Operation codes of the bytecode.
#[derive(Debug, Copy, Clone, PartialEq, Eq, Structural)]
pub enum OpCode {
    CONSTANT,
    RETURN,
}

impl OpCode {
    /// The byte that encodes this operation.
    pub open spec fn spec_byte(self) -> u8 {
        match self {
            OpCode::CONSTANT => 0,
            OpCode::RETURN => 1,
        }
    }

    pub fn byte(self) -> (r: u8)
        ensures
            r == self.spec_byte(),
    {
        match self {
            OpCode::CONSTANT => 0,
            OpCode::RETURN => 1,
        }
    }
}

/// The capacity that a buffer of `capacity` slots grows to.
pub open spec fn spec_grow_capacity(capacity: nat) -> nat {
    if capacity < 8 {
        8
    } else {
        capacity * 2
    }
}

/// Next capacity of a growable buffer: at least eight slots, then doubling.
pub fn grow_capacity(capacity: usize) -> (r: usize)
    requires
        capacity < 8 || capacity <= usize::MAX / 2,
    ensures
        r == spec_grow_capacity(capacity as nat),
        r > capacity,
{
    if capacity < 8 {
        8
    } else {
        capacity * 2
    }
}

impl From<OpCode> for u8 {
    fn from(op: OpCode) -> (r: u8)
        ensures
            r == op.spec_byte(),
    {
        op.byte()
    }
}

impl vstd::std_specs::convert::FromSpecImpl<OpCode> for u8 {
    open spec fn obeys_from_spec() -> bool {
        true
    }

    open spec fn from_spec(op: OpCode) -> u8 {
        op.spec_byte()
    }
}

/// A constant of the bytecode, kept as the bit pattern of its 64-bit float:
/// the chunk stores constants and never interprets them.
pub type Value = u64;

/// The capacity after making room for one more element.
pub open spec fn capacity_after_write(capacity: usize, count: usize) -> usize {
    if capacity < count + 1 {
        spec_grow_capacity(capacity as nat) as usize
    } else {
        capacity
    }
}

/// The constants of a chunk, with the capacity that the growth policy reserved.
pub struct ValueArray {
    pub capacity: usize,
    pub count: usize,
    pub values: Vec<Value>,
}

impl ValueArray {
    pub open spec fn wf(&self) -> bool {
        self.values@.len() == self.count && self.count <= self.capacity
    }

    pub fn new() -> (r: ValueArray)
        ensures
            r.wf(),
            r.count == 0,
            r.capacity == 0,
    {
        ValueArray { capacity: 0, count: 0, values: Vec::new() }
    }

    /// Appends a constant, growing the capacity first when it is full.
    pub fn write_value_array(&mut self, value: Value)
        requires
            old(self).wf(),
            old(self).count < usize::MAX / 2,
        ensures
            final(self).wf(),
            final(self).values@ == old(self).values@.push(value),
            final(self).count == old(self).count + 1,
            final(self).capacity == capacity_after_write(old(self).capacity, old(self).count),
    {
        if self.capacity < self.count + 1 {
            self.capacity = grow_capacity(self.capacity);
            self.values.reserve(self.capacity - self.count);
        }
        self.values.push(value);
        self.count = self.count + 1;
    }

    /// Releases the constants; the array is empty again.
    pub fn free_value_array(&mut self)
        ensures
            final(self).wf(),
            final(self).count == 0,
            final(self).capacity == 0,
    {
        *self = ValueArray::new();
    }
}

/// Bytecode with the source line of each byte, and its constants.
pub struct Chunk {
    pub count: usize,
    pub capacity: usize,
    pub code: Vec<u8>,
    pub lines: Vec<u8>,
    pub constants: ValueArray,
}

impl Chunk {
    pub open spec fn wf(&self) -> bool {
        &&& self.code@.len() == self.count
        &&& self.lines@.len() == self.count
        &&& self.count <= self.capacity
        &&& self.constants.wf()
    }

    pub fn new() -> (r: Chunk)
        ensures
            r.wf(),
            r.count == 0,
            r.capacity == 0,
            r.constants.count == 0,
    {
        Chunk { count: 0, capacity: 0, code: Vec::new(), lines: Vec::new(), constants: ValueArray::new() }
    }

    /// Appends one byte with its source line, growing the capacity first
    /// when it is full.
    pub fn write_chunk(&mut self, byte: u8, line: u8)
        requires
            old(self).wf(),
            old(self).count < usize::MAX / 2,
        ensures
            final(self).wf(),
            final(self).code@ == old(self).code@.push(byte),
            final(self).lines@ == old(self).lines@.push(line),
            final(self).count == old(self).count + 1,
            final(self).capacity == capacity_after_write(old(self).capacity, old(self).count),
            final(self).constants == old(self).constants,
    {
        if self.capacity < self.count + 1 {
            self.capacity = grow_capacity(self.capacity);
            self.code.reserve(self.capacity - self.count);
            self.lines.reserve(self.capacity - self.count);
        }
        self.code.push(byte);
        self.lines.push(line);
        self.count = self.count + 1;
    }

    /// Adds a constant and returns its index.
    pub fn add_constants(&mut self, value: Value) -> (r: usize)
        requires
            old(self).wf(),
            old(self).constants.count < usize::MAX / 2,
        ensures
            final(self).wf(),
            final(self).constants.values@ == old(self).constants.values@.push(value),
            r == old(self).constants.count,
            final(self).code@ == old(self).code@,
            final(self).lines@ == old(self).lines@,
            final(self).count == old(self).count,
            final(self).capacity == old(self).capacity,
    {
        self.constants.write_value_array(value);
        self.constants.count - 1
    }

    /// Releases code, lines and constants; the chunk is empty again.
    pub fn free_chunk(&mut self)
        ensures
            final(self).wf(),
            final(self).count == 0,
            final(self).capacity == 0,
            final(self).constants.count == 0,
    {
        *self = Chunk::new();
    }
}

/// What the bytes at one offset encode.
#[derive(Debug, Copy, Clone, PartialEq, Eq, Structural)]
pub enum Operation {
    /// Loads constant `index`; `value` is absent when no such constant exists.
    Constant { index: u8, value: Option<Value> },
    /// A constant load whose operand byte is missing.
    Truncated,
    Return,
    Unknown(u8),
}

/// One decoded instruction.
#[derive(Debug, Copy, Clone, PartialEq, Eq, Structural)]
pub struct Instruction {
    pub offset: usize,
    pub line: u8,
    /// The instruction starts on the same source line as the byte before it.
    pub same_line: bool,
    pub operation: Operation,
    /// Offset of the next instruction.
    pub next: usize,
}

/// The instruction that starts at `offset`.
pub open spec fn spec_decode(chunk: &Chunk, offset: int) -> Instruction
    recommends
        chunk.wf(),
        0 <= offset < chunk.count,
{
    let op = chunk.code@[offset];
    let operation = if op == OpCode::CONSTANT.spec_byte() {
        if offset + 1 < chunk.count {
            let index = chunk.code@[offset + 1];
            Operation::Constant {
                index,
                value: if (index as int) < chunk.constants.count {
                    Some(chunk.constants.values@[index as int])
                } else {
                    None
                },
            }
        } else {
            Operation::Truncated
        }
    } else if op == OpCode::RETURN.spec_byte() {
        Operation::Return
    } else {
        Operation::Unknown(op)
    };
    Instruction {
        offset: offset as usize,
        line: chunk.lines@[offset],
        same_line: offset > 0 && chunk.lines@[offset] == chunk.lines@[offset - 1],
        operation,
        next: (if op == OpCode::CONSTANT.spec_byte() && offset + 1 < chunk.count {
            offset + 2
        } else {
            offset + 1
        }) as usize,
    }
}

/// Decodes the instruction at `offset`.
pub fn disassemble_instruction(chunk: &Chunk, offset: usize) -> (r: Instruction)
    requires
        chunk.wf(),
        offset < chunk.count,
    ensures
        r == spec_decode(chunk, offset as int),
{
    let op = chunk.code[offset];
    let line = chunk.lines[offset];
    let same_line = offset > 0 && line == chunk.lines[offset - 1];
    if op == OpCode::CONSTANT.byte() {
        if offset + 1 < chunk.count {
            let index = chunk.code[offset + 1];
            let value = if (index as usize) < chunk.constants.count {
                Some(chunk.constants.values[index as usize])
            } else {
                None
            };
            Instruction {
                offset,
                line,
                same_line,
                operation: Operation::Constant { index, value },
                next: offset + 2,
            }
        } else {
            Instruction { offset, line, same_line, operation: Operation::Truncated, next: offset + 1 }
        }
    } else if op == OpCode::RETURN.byte() {
        Instruction { offset, line, same_line, operation: Operation::Return, next: offset + 1 }
    } else {
        Instruction { offset, line, same_line, operation: Operation::Unknown(op), next: offset + 1 }
    }
}

/// Decodes the whole chunk: the first instruction starts at offset zero,
/// each following one where the previous one ends, until the code ends.
pub fn disassemble_chunk(chunk: &Chunk) -> (r: Vec<Instruction>)
    requires
        chunk.wf(),
        chunk.count < usize::MAX,
    ensures
        chunk.count == 0 <==> r@.len() == 0,
        r@.len() > 0 ==> r@[0].offset == 0 && r@.last().next >= chunk.count,
        forall|i: int|
            0 <= i < r@.len() ==> (#[trigger] r@[i]).offset < chunk.count && r@[i] == spec_decode(
                chunk,
                r@[i].offset as int,
            ),
        forall|i: int| 0 < i < r@.len() ==> (#[trigger] r@[i]).offset == r@[i - 1].next,
{
    let mut r: Vec<Instruction> = Vec::new();
    let mut offset: usize = 0;
    while offset < chunk.count
        invariant
            chunk.wf(),
            chunk.count < usize::MAX,
            r@.len() == 0 <==> offset == 0,
            r@.len() > 0 ==> r@[0].offset == 0 && r@.last().next == offset,
            forall|i: int|
                0 <= i < r@.len() ==> (#[trigger] r@[i]).offset < chunk.count && r@[i]
                    == spec_decode(chunk, r@[i].offset as int),
            forall|i: int| 0 < i < r@.len() ==> (#[trigger] r@[i]).offset == r@[i - 1].next,
            offset <= chunk.count + 1,
        decreases chunk.count + 1 - offset,
    {
        let instruction = disassemble_instruction(chunk, offset);
        offset = instruction.next;
        r.push(instruction);
    }
    r
}

} // verus!
