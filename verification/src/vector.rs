use crate::loader;
use crate::Matrix;
use vstd::prelude::*;

verus! {

/// Everything that can go wrong during one dispatched operation. Each
/// failure aborts that operation only and names the failing stage; the
/// `String` payloads carry the platform layer's diagnostic text.
#[derive(Debug)]
pub enum VecOpEr {
    /// The two vector operands have different lengths.
    SizeMismatch,
    /// An operand is empty.
    EmptyOperand,
    /// A device buffer could not be allocated.
    BufferAlloc(String),
    /// Writing an operand into its device buffer failed.
    Transfer(String),
    /// The named kernel could not be built from the compiled program.
    KernelBuild(String),
    /// Enqueueing the kernel, or reading the result back, failed.
    Enqueue(String),
}

/// The four elementwise operators that vector arithmetic dispatches.
#[derive(Clone, Copy, PartialEq, Eq, Structural, Debug)]
pub enum VecOp {
    Add,
    Sub,
    Mul,
    Div,
}

impl VecOp {
    /// This operator's position in the registered variant table.
    pub open spec fn spec_index(&self) -> int {
        match self {
            VecOp::Add => 0,
            VecOp::Sub => 1,
            VecOp::Mul => 2,
            VecOp::Div => 3,
        }
    }

    /// The name of the specialized kernel this operator dispatches to.
    pub open spec fn spec_kernel_name(&self) -> Seq<char> {
        match self {
            VecOp::Add => "add"@,
            VecOp::Sub => "sub"@,
            VecOp::Mul => "mul"@,
            VecOp::Div => "div"@,
        }
    }

    /// Returns the kernel name this operator dispatches to.
    pub fn kernel_name(&self) -> (r: &'static str)
        ensures
            r@ == self.spec_kernel_name(),
    {
        match self {
            VecOp::Add => "add",
            VecOp::Sub => "sub",
            VecOp::Mul => "mul",
            VecOp::Div => "div",
        }
    }
}

/// Dispatch and assembly agree on kernel names: the kernel that each
/// elementwise operator dispatches to is exactly the kernel that source
/// assembly generates for that operator's variant of an operator-generic
/// source file.
pub proof fn lemma_kernel_names_match_variants(op: VecOp)
    ensures
        op.spec_kernel_name() == loader::spec_kernel_name(op.spec_index()),
        0 <= op.spec_index() < loader::spec_variant_count(),
{
}

/// The two reduction operators, dispatched as compound assignment against
/// a scalar accumulator.
#[derive(Clone, Copy, PartialEq, Eq, Structural, Debug)]
pub enum DownOp {
    Add,
    Mul,
}

impl DownOp {
    /// The name of the reduction kernel this operator dispatches to.
    pub open spec fn spec_kernel_name(&self) -> Seq<char> {
        match self {
            DownOp::Add => "add_down"@,
            DownOp::Mul => "mul_down"@,
        }
    }

    /// Returns the reduction kernel name this operator dispatches to.
    pub fn kernel_name(&self) -> (r: &'static str)
        ensures
            r@ == self.spec_kernel_name(),
    {
        match self {
            DownOp::Add => "add_down",
            DownOp::Mul => "mul_down",
        }
    }
}

/// One argument slot of a kernel invocation: which buffer or length is
/// passed at that position.
#[derive(Clone, Copy, PartialEq, Eq, Structural, Debug)]
pub enum KernelArg {
    RhsBuffer,
    RhsLen,
    LhsBuffer,
    LhsLen,
    OutBuffer,
}

/// The argument order of every binary elementwise kernel: right operand
/// buffer and length, left operand buffer and length, then the output
/// buffer.
pub open spec fn spec_basic_op_args() -> Seq<KernelArg> {
    seq![
        KernelArg::RhsBuffer,
        KernelArg::RhsLen,
        KernelArg::LhsBuffer,
        KernelArg::LhsLen,
        KernelArg::OutBuffer,
    ]
}

/// The argument order of every reduction kernel: the operand buffer and
/// its length.
pub open spec fn spec_down_op_args() -> Seq<KernelArg> {
    seq![KernelArg::RhsBuffer, KernelArg::RhsLen]
}

/// The buffer and invocation schedule for one elementwise operation: three
/// device buffers (left operand, right operand, output), each sized to the
/// operands' common length, the kernel argument order, and the dispatch
/// geometry taken from the operands' compute context. The buffers live for
/// exactly one kernel invocation.
pub struct OpPlan {
    pub buffer_len: usize,
    pub args: Vec<KernelArg>,
    pub global_work_size: usize,
    pub local_work_size: usize,
}

/// The buffer and invocation schedule for one reduction: a single device
/// buffer holding the operand, accumulated in place, of which only the
/// first element is read back.
pub struct DownPlan {
    pub buffer_len: usize,
    pub read_len: usize,
    pub args: Vec<KernelArg>,
    pub global_work_size: usize,
    pub local_work_size: usize,
}

impl<T> Matrix<Vec<T>> {
    /// Checks the preconditions of a binary elementwise operation between
    /// this container and `rhs` and lays out its buffer schedule. No
    /// device buffer may be allocated unless this returns a plan: the
    /// operands must have the same nonzero length.
    pub fn basic_op_plan(&self, rhs: &Matrix<Vec<T>>) -> (r: Result<OpPlan, VecOpEr>)
        requires
            self.loader is Some,
        ensures
            r is Ok <==> self.A@.len() == rhs.A@.len() && self.A@.len() > 0,
            r matches Ok(p) ==> {
                &&& p.buffer_len == self.A@.len()
                &&& p.args@ == spec_basic_op_args()
                &&& p.global_work_size == self.loader.unwrap().global_work_size
                &&& p.local_work_size == self.loader.unwrap().local_work_size
            },
            r matches Err(e) ==> {
                &&& e is SizeMismatch <==> self.A@.len() != rhs.A@.len()
                &&& e is EmptyOperand <==> self.A@.len() == rhs.A@.len() && self.A@.len() == 0
            },
    {
        if self.A.len() != rhs.A.len() {
            return Err(VecOpEr::SizeMismatch);
        }
        if self.A.len() == 0 {
            return Err(VecOpEr::EmptyOperand);
        }
        let l = match &self.loader {
            Some(l) => l,
            None => {
                return unreached();
            },
        };
        let mut args: Vec<KernelArg> = Vec::new();
        args.push(KernelArg::RhsBuffer);
        args.push(KernelArg::RhsLen);
        args.push(KernelArg::LhsBuffer);
        args.push(KernelArg::LhsLen);
        args.push(KernelArg::OutBuffer);
        proof {
            assert(args@ =~= spec_basic_op_args());
        }
        Ok(
            OpPlan {
                buffer_len: self.A.len(),
                args,
                global_work_size: l.global_work_size,
                local_work_size: l.local_work_size,
            },
        )
    }

    /// Checks the preconditions of a reduction over this container and
    /// lays out its buffer schedule: one buffer holding the whole operand,
    /// of which a single element comes back.
    pub fn down_op_plan(&self) -> (r: Result<DownPlan, VecOpEr>)
        requires
            self.loader is Some,
        ensures
            r is Ok <==> self.A@.len() > 0,
            r matches Ok(p) ==> {
                &&& p.buffer_len == self.A@.len()
                &&& p.read_len == 1
                &&& p.args@ == spec_down_op_args()
                &&& p.global_work_size == self.loader.unwrap().global_work_size
                &&& p.local_work_size == self.loader.unwrap().local_work_size
            },
            r matches Err(e) ==> e is EmptyOperand,
    {
        if self.A.len() == 0 {
            return Err(VecOpEr::EmptyOperand);
        }
        let l = match &self.loader {
            Some(l) => l,
            None => {
                return unreached();
            },
        };
        let mut args: Vec<KernelArg> = Vec::new();
        args.push(KernelArg::RhsBuffer);
        args.push(KernelArg::RhsLen);
        proof {
            assert(args@ =~= spec_down_op_args());
        }
        Ok(
            DownPlan {
                buffer_len: self.A.len(),
                read_len: 1,
                args,
                global_work_size: l.global_work_size,
                local_work_size: l.local_work_size,
            },
        )
    }
}

} // verus!
