use cl_matrix::loader::{DeviceProfile, KernelLoader, KernelSource, TypeMap};
use cl_matrix::vector::{DownOp, KernelArg, VecOp, VecOpEr};
use cl_matrix::Matrix;
use std::sync::Arc;

const GENERIC_BODY: &str =
    "__kernel void KERNEL_NAME(__global TYPE_T *a) { a[0] = a[0] OPERATOR a[0]; }\n";

fn context(t: TypeMap) -> Arc<KernelLoader> {
    let device = DeviceProfile {
        max_compute_units: 8,
        max_clock_frequency: 1000,
        max_work_group_size: 256,
        available: true,
    };
    let sources = vec![KernelSource {
        name: "vec_arithmetic.cl".to_string(),
        content: GENERIC_BODY.to_string(),
    }];
    Arc::new(KernelLoader::new(t, &device, Some(0x3f), &sources, false, false, 16).unwrap())
}

fn vector_of<T: Clone>(loader: &Arc<KernelLoader>, values: Vec<T>) -> Matrix<Vec<T>> {
    Matrix { loader: Some(loader.clone()), A: values }
}

/// Walks one vector pipeline for a bound precision as far as it reaches
/// without an accelerator attached: context build, operand layout for each
/// elementwise operator, scalar broadcast, and the reduction layout.
fn vec_ops<T: Clone + PartialEq + std::fmt::Debug>(t: TypeMap, len: usize, one: T, two: T, ten: T) {
    let loader = context(t);
    assert_eq!(loader.global_work_size, 256 / 16);
    assert_eq!(loader.sources.len(), 4);

    let lhs = vector_of(&loader, vec![one; len]);
    let rhs = vector_of(&loader, vec![two; len]);

    for op in [VecOp::Add, VecOp::Sub, VecOp::Mul, VecOp::Div] {
        let plan = lhs.basic_op_plan(&rhs).unwrap();
        assert_eq!(plan.buffer_len, len);
        assert_eq!(plan.global_work_size, loader.global_work_size);
        assert_eq!(plan.local_work_size, loader.local_work_size);
        assert_eq!(
            plan.args,
            vec![
                KernelArg::RhsBuffer,
                KernelArg::RhsLen,
                KernelArg::LhsBuffer,
                KernelArg::LhsLen,
                KernelArg::OutBuffer,
            ]
        );
        let name = op.kernel_name();
        assert!(loader.sources.iter().any(|u| u.contains(&format!("KERNEL_NAME {}\n", name))));
    }

    let scalar = Matrix { loader: Some(loader.clone()), A: ten.clone() };
    let broadcast = scalar.fill_dim(len);
    assert_eq!(broadcast.A.len(), len);
    assert!(broadcast.A.iter().all(|v| *v == ten));
    assert!(broadcast.loader.is_some());
    let plan = lhs.basic_op_plan(&broadcast).unwrap();
    assert_eq!(plan.buffer_len, len);

    let down = lhs.down_op_plan().unwrap();
    assert_eq!(down.buffer_len, len);
    assert_eq!(down.read_len, 1);
    assert_eq!(down.args, vec![KernelArg::RhsBuffer, KernelArg::RhsLen]);
    assert_eq!(down.global_work_size, loader.global_work_size);
}

#[test]
fn vec_ops_f16() {
    vec_ops(
        TypeMap::F16,
        10,
        half::f16::from_f32(1.0),
        half::f16::from_f32(2.0),
        half::f16::from_f32(10.0),
    );
}

#[test]
fn vec_ops_f32() {
    vec_ops(TypeMap::F32, 10, 1.0f32, 2.0f32, 10.0f32);
}

#[test]
fn vec_ops_f64() {
    vec_ops(TypeMap::F64, 10, 1.0f64, 2.0f64, 10.0f64);
}

#[test]
fn vec_ops_f32_large() {
    vec_ops(TypeMap::F32, 100, 1.0f32, 2.0f32, 10.0f32);
}

#[test]
fn mismatched_lengths_give_size_mismatch_and_no_plan() {
    let loader = context(TypeMap::F32);
    let lhs = vector_of(&loader, vec![1.0f32, 2.0, 3.0]);
    let rhs = vector_of(&loader, vec![1.0f32, 2.0]);
    assert!(matches!(lhs.basic_op_plan(&rhs), Err(VecOpEr::SizeMismatch)));
}

#[test]
fn empty_operands_give_empty_operand() {
    let loader = context(TypeMap::F32);
    let lhs = vector_of(&loader, Vec::<f32>::new());
    let rhs = vector_of(&loader, Vec::<f32>::new());
    assert!(matches!(lhs.basic_op_plan(&rhs), Err(VecOpEr::EmptyOperand)));
    assert!(matches!(lhs.down_op_plan(), Err(VecOpEr::EmptyOperand)));
}

#[test]
fn operators_dispatch_to_generated_kernels() {
    assert_eq!(VecOp::Add.kernel_name(), "add");
    assert_eq!(VecOp::Sub.kernel_name(), "sub");
    assert_eq!(VecOp::Mul.kernel_name(), "mul");
    assert_eq!(VecOp::Div.kernel_name(), "div");
    assert_eq!(DownOp::Add.kernel_name(), "add_down");
    assert_eq!(DownOp::Mul.kernel_name(), "mul_down");
}

#[test]
fn fill_dim_keeps_the_shared_context() {
    let loader = context(TypeMap::F32);
    let scalar = Matrix { loader: Some(loader.clone()), A: 3.5f32 };
    let widened = scalar.fill_dim(4);
    assert_eq!(widened.A, vec![3.5f32; 4]);
    match &widened.loader {
        Some(shared) => assert!(Arc::ptr_eq(shared, &loader)),
        None => panic!("broadcast lost the context"),
    }
}

#[test]
fn unbound_scalar_broadcast_stays_unbound() {
    let scalar = Matrix { loader: None, A: 7u32 };
    let widened = scalar.fill_dim(3);
    assert_eq!(widened.A, vec![7u32; 3]);
    assert!(widened.loader.is_none());
}
