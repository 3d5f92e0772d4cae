use gnu_libjit::{
    Abi, BinaryOp, Binding, Constant, Context, Exception, Function, Instruction, JitType, Kind,
    Label, Literal, Signature,
};

fn jit_int() -> JitType {
    Context::int_type()
}

fn jit_double() -> JitType {
    Context::float64_type()
}

/// Builds a function without parameters with `body`, compiles it, and
/// returns it for the caller to look at.
fn make_test(body: Box<dyn Fn(&mut Function, &mut Context)>, jit_type: JitType) -> Function {
    let mut context = Context::new();
    context.build_start().unwrap();
    let mut func = context.function(Abi::Cdecl, jit_type, vec![]).unwrap();
    body(&mut func, &mut context);
    func.compile().unwrap();
    context.build_end();
    assert!(func.is_compiled());
    func
}

fn long(n: i64) -> Constant {
    Constant::new_long(n)
}

fn double(x: f64) -> Constant {
    Constant::new_float64(x.to_bits())
}

fn binary_program(op: BinaryOp, a: Constant, b: Constant) -> Vec<Instruction> {
    vec![
        Instruction::Const { dest: 0, constant: a },
        Instruction::Const { dest: 1, constant: b },
        Instruction::Binary { op, dest: 2, left: 0, right: 1 },
        Instruction::Return { value: 2 },
    ]
}

#[test]
fn test_const() {
    let test = |func: &mut Function, _context: &mut Context| {
        let zero = func.create_long_constant(0);
        func.insn_return(zero);
    };
    let func = make_test(Box::new(test), jit_int());
    assert_eq!(
        func.instructions(),
        &vec![Instruction::Const { dest: 0, constant: long(0) }, Instruction::Return { value: 0 }]
    );
}

#[test]
fn test_add_int() {
    let test = |func: &mut Function, _context: &mut Context| {
        let three = func.create_long_constant(3);
        let one = func.create_long_constant(1);
        let result = func.insn_add(&three, &one);
        assert_eq!(result.value_type(), Context::long_type());
        func.insn_return(result);
    };
    let func = make_test(Box::new(test), jit_int());
    assert_eq!(func.instructions(), &binary_program(BinaryOp::Add, long(3), long(1)));
}

#[test]
fn test_sub_int() {
    let test = |func: &mut Function, _context: &mut Context| {
        let three = func.create_long_constant(3);
        let one = func.create_long_constant(1);
        let result = func.insn_sub(&one, &three);
        func.insn_return(result);
    };
    let func = make_test(Box::new(test), jit_int());
    assert_eq!(
        func.instructions(),
        &vec![
            Instruction::Const { dest: 0, constant: long(3) },
            Instruction::Const { dest: 1, constant: long(1) },
            Instruction::Binary { op: BinaryOp::Sub, dest: 2, left: 1, right: 0 },
            Instruction::Return { value: 2 },
        ]
    );
}

#[test]
fn test_mult_int() {
    let test = |func: &mut Function, _context: &mut Context| {
        let a = func.create_long_constant(3);
        let b = func.create_long_constant(100);
        let result = func.insn_mult(&a, &b);
        func.insn_return(result);
    };
    let func = make_test(Box::new(test), jit_int());
    assert_eq!(func.instructions(), &binary_program(BinaryOp::Mul, long(3), long(100)));
}

#[test]
fn test_div_int() {
    let test = |func: &mut Function, _context: &mut Context| {
        let a = func.create_long_constant(300);
        let b = func.create_long_constant(100);
        assert!(!func.is_zero_constant(&b));
        let result = func.insn_div(&a, &b);
        func.insn_return(result);
    };
    let func = make_test(Box::new(test), jit_int());
    assert_eq!(func.instructions(), &binary_program(BinaryOp::Div, long(300), long(100)));
}

#[test]
fn test_add_double() {
    let test = |func: &mut Function, _context: &mut Context| {
        let a = func.create_float64_constant(1.0f64.to_bits());
        let b = func.create_float64_constant(1.0f64.to_bits());
        let result = func.insn_add(&a, &b);
        assert_eq!(result.value_type(), Context::float64_type());
        func.insn_return(result);
    };
    let func = make_test(Box::new(test), jit_double());
    assert_eq!(func.instructions(), &binary_program(BinaryOp::Add, double(1.0), double(1.0)));
}

#[test]
fn test_sub_double() {
    let test = |func: &mut Function, _context: &mut Context| {
        let three = func.create_float64_constant(3.0f64.to_bits());
        let one = func.create_float64_constant(1.0f64.to_bits());
        let result = func.insn_sub(&one, &three);
        func.insn_return(result);
    };
    let func = make_test(Box::new(test), jit_double());
    assert_eq!(
        func.instructions(),
        &vec![
            Instruction::Const { dest: 0, constant: double(3.0) },
            Instruction::Const { dest: 1, constant: double(1.0) },
            Instruction::Binary { op: BinaryOp::Sub, dest: 2, left: 1, right: 0 },
            Instruction::Return { value: 2 },
        ]
    );
}

#[test]
fn test_mult_double() {
    let test = |func: &mut Function, _context: &mut Context| {
        let a = func.create_float64_constant(3.0f64.to_bits());
        let b = func.create_float64_constant(100.0f64.to_bits());
        let result = func.insn_mult(&a, &b);
        func.insn_return(result);
    };
    let func = make_test(Box::new(test), jit_double());
    assert_eq!(func.instructions(), &binary_program(BinaryOp::Mul, double(3.0), double(100.0)));
}

#[test]
fn test_div_double() {
    let test = |func: &mut Function, _context: &mut Context| {
        let a = func.create_float64_constant(300.0f64.to_bits());
        let b = func.create_float64_constant(100.0f64.to_bits());
        let result = func.insn_div(&a, &b);
        func.insn_return(result);
    };
    let func = make_test(Box::new(test), jit_double());
    assert_eq!(func.instructions(), &binary_program(BinaryOp::Div, double(300.0), double(100.0)));
}

#[test]
fn test_branching() {
    let mut context = Context::new();
    context.build_start().unwrap();
    let float_type = Context::float64_type();
    let mut func = context.function(Abi::Cdecl, float_type, vec![float_type]).unwrap();

    // Return 1 if arg0 == 4
    // else return 0
    let is_four_result = func.create_float64_constant(1.0f64.to_bits());
    let not_four_result = func.create_float64_constant(0.0f64.to_bits());

    let x = func.arg(0).unwrap();
    let four = func.create_float64_constant(4.0f64.to_bits());
    let mut label = Label::new();
    let eq_to_4 = func.insn_eq(&x, &four);
    func.insn_branch_if(&eq_to_4, &mut label);
    let landing = label.number().unwrap();
    func.insn_return(not_four_result);
    func.insn_label(label);
    func.insn_return(is_four_result);
    func.compile().unwrap();
    context.build_end();

    assert_eq!(eq_to_4.value_type(), Context::int_type());
    assert_eq!(
        func.instructions(),
        &vec![
            Instruction::Const { dest: 1, constant: double(1.0) },
            Instruction::Const { dest: 2, constant: double(0.0) },
            Instruction::Const { dest: 3, constant: double(4.0) },
            Instruction::Binary { op: BinaryOp::Eq, dest: 4, left: 0, right: 3 },
            Instruction::BranchIf { condition: 4, target: 0 },
            Instruction::Return { value: 2 },
            Instruction::Bind { label: 0 },
            Instruction::Return { value: 1 },
        ]
    );
    // The branch lands on the instruction that binds the label, after
    // which the function returns 1.0.
    assert_eq!(landing, 0);
    assert_eq!(func.label_position(landing), Some(6));
}

#[test]
fn test_branching_on_u8() {
    let mut context = Context::new();
    context.build_start().unwrap();
    let ubyte_type = Context::ubyte_type();
    let mut func = context.function(Abi::Cdecl, ubyte_type, vec![ubyte_type]).unwrap();

    // Return 10 if arg == 0
    // Return 20 if arg == 1
    // Return 30 if arg == 2
    // By branching not doing math
    let zero = func.create_ubyte_constant(0);
    let one = func.create_ubyte_constant(1);
    let n_10 = func.create_ubyte_constant(10);
    let n_20 = func.create_ubyte_constant(20);
    let n_30 = func.create_ubyte_constant(30);

    let arg1 = func.arg(0).unwrap();
    let is_zero = func.insn_eq(&zero, &arg1);
    let mut not_zero_lbl = Label::new();
    func.insn_branch_if_not(&is_zero, &mut not_zero_lbl);
    let not_zero = not_zero_lbl.number().unwrap();
    func.insn_return(n_10);

    func.insn_label(not_zero_lbl);
    let is_one = func.insn_eq(&one, &arg1);
    let mut not_one_lbl = Label::new();
    func.insn_branch_if_not(&is_one, &mut not_one_lbl);
    let not_one = not_one_lbl.number().unwrap();
    func.insn_return(n_20);

    func.insn_label(not_one_lbl);
    func.insn_return(n_30);

    func.compile().unwrap();

    assert_eq!(
        func.instructions(),
        &vec![
            Instruction::Const { dest: 1, constant: Constant::new_u8(0) },
            Instruction::Const { dest: 2, constant: Constant::new_u8(1) },
            Instruction::Const { dest: 3, constant: Constant::new_u8(10) },
            Instruction::Const { dest: 4, constant: Constant::new_u8(20) },
            Instruction::Const { dest: 5, constant: Constant::new_u8(30) },
            Instruction::Binary { op: BinaryOp::Eq, dest: 6, left: 1, right: 0 },
            Instruction::BranchIfNot { condition: 6, target: 0 },
            Instruction::Return { value: 3 },
            Instruction::Bind { label: 0 },
            Instruction::Binary { op: BinaryOp::Eq, dest: 7, left: 2, right: 0 },
            Instruction::BranchIfNot { condition: 7, target: 1 },
            Instruction::Return { value: 4 },
            Instruction::Bind { label: 1 },
            Instruction::Return { value: 5 },
        ]
    );
    assert_eq!(func.label_position(not_zero), Some(8));
    assert_eq!(func.label_position(not_one), Some(12));
}

#[test]
fn test_native_func_passing_a_ptr_over_ffi() {
    // The addresses of the counter and of the native function that adds one
    // to it; the builder only carries them.
    let ptr_to_value: usize = 0x7000_1000;
    let add_one_to_value: usize = 0x4000_2000;
    let mut context = Context::new();
    context.build_start().unwrap();
    let ubyte_type = Context::ubyte_type();
    let mut func = context.function(Abi::Cdecl, ubyte_type, vec![ubyte_type]).unwrap();
    let ptr_constant = func.create_void_ptr_constant(ptr_to_value);
    let zero = func.create_ubyte_constant(0);
    let called = func.insn_call_native(add_one_to_value, vec![ptr_constant], None);
    func.insn_return(zero);
    func.compile().unwrap();

    assert!(called.value_type().is_void());
    assert_eq!(
        func.instructions(),
        &vec![
            Instruction::Const { dest: 1, constant: Constant::new_void_ptr(ptr_to_value) },
            Instruction::Const { dest: 2, constant: Constant::new_u8(0) },
            Instruction::CallNative {
                dest: 3,
                function: add_one_to_value,
                first_arg: 0,
                arg_count: 1,
                return_type: Context::void_type(),
            },
            Instruction::Return { value: 2 },
        ]
    );
    assert_eq!(func.call_arguments(), &vec![1usize]);
}

#[test]
fn fn_test_load_and_store() {
    let mut context = Context::new();
    context.build_start().unwrap();

    let float_type = Context::float64_type();
    let params = vec![float_type];
    let mut func = context.function(Abi::Cdecl, float_type, params).unwrap();

    let x = func.arg(0).unwrap();
    let float_ptr_1 = func.alloca(8);
    let float_ptr_2 = func.alloca(8);

    let const_dbl = func.create_float64_constant(123.0f64.to_bits());
    func.insn_store(&float_ptr_2, &const_dbl);

    func.insn_store(&float_ptr_1, &x);
    let f1 = func.insn_load(&float_ptr_1);

    func.insn_store(&float_ptr_1, &f1);
    let f2 = func.insn_load(&float_ptr_1);

    func.insn_store(&float_ptr_1, &f2);
    let f3 = func.insn_load(&float_ptr_1);

    let const_dbl2 = func.insn_load(&float_ptr_2);

    let x_plus_123 = func.insn_add(&const_dbl2, &f3);

    func.insn_return(x_plus_123);
    func.compile().unwrap();
    context.build_end();

    // Every load gives a value of the type that was stored.
    assert_eq!(f1.value_type(), float_type);
    assert_eq!(f2.value_type(), float_type);
    assert_eq!(f3.value_type(), float_type);
    assert_eq!(const_dbl2.value_type(), float_type);
    assert_eq!(x_plus_123.value_type(), float_type);
    assert_eq!(
        func.instructions(),
        &vec![
            Instruction::Alloca { dest: 1, size: 8 },
            Instruction::Alloca { dest: 2, size: 8 },
            Instruction::Const { dest: 3, constant: double(123.0) },
            Instruction::Store { address: 2, value: 3 },
            Instruction::Store { address: 1, value: 0 },
            Instruction::Load { dest: 4, address: 1 },
            Instruction::Store { address: 1, value: 4 },
            Instruction::Load { dest: 5, address: 1 },
            Instruction::Store { address: 1, value: 5 },
            Instruction::Load { dest: 6, address: 1 },
            Instruction::Load { dest: 7, address: 2 },
            Instruction::Binary { op: BinaryOp::Add, dest: 8, left: 7, right: 6 },
            Instruction::Return { value: 8 },
        ]
    );
}

#[test]
fn arg_beyond_the_parameters_is_an_error() {
    let mut context = Context::new();
    context.build_start().unwrap();
    let mut func = context.function(Abi::Cdecl, jit_int(), vec![jit_int()]).unwrap();
    assert_eq!(
        func.arg(1),
        Err(Exception::ArgIndexTooLarge(
            "Function has 1 args but you requested index 1".to_string()
        ))
    );
    assert_eq!(
        func.arg(3),
        Err(Exception::ArgIndexTooLarge(
            "Function has 1 args but you requested index 3".to_string()
        ))
    );
    assert_eq!(
        func.arg(-1),
        Err(Exception::ArgIndexTooLarge(
            "Function has 1 args but you requested index -1".to_string()
        ))
    );
    let first = func.arg(0).unwrap();
    assert_eq!(first.index, 0);
    assert_eq!(first.value_type(), jit_int());
    assert!(func.owns(&first));
    // Asking again gives the same value and appends nothing.
    assert_eq!(func.arg(0).unwrap(), first);
    assert!(func.instructions().is_empty());
    let _ = func.compile();
}

#[test]
fn arg_of_a_function_without_parameters_is_an_error() {
    let mut context = Context::new();
    context.build_start().unwrap();
    let func = context.function(Abi::Cdecl, jit_int(), vec![]).unwrap();
    assert_eq!(
        func.arg(0),
        Err(Exception::ArgIndexTooLarge(
            "Function has 0 args but you requested index 0".to_string()
        ))
    );
}

#[test]
fn the_message_of_an_argument_error_names_both_numbers() {
    let mut context = Context::new();
    context.build_start().unwrap();
    let func = context.function(Abi::Cdecl, jit_int(), vec![jit_int()]).unwrap();
    let e = func.arg(3).unwrap_err();
    assert_eq!(e.message(), "Function has 1 args but you requested index 3");
    assert_eq!(
        func.arg(i32::MIN).unwrap_err().message(),
        "Function has 1 args but you requested index -2147483648"
    );
    assert_eq!(
        func.arg(i32::MAX).unwrap_err().message(),
        "Function has 1 args but you requested index 2147483647"
    );
    assert_eq!(
        func.arg(-10).unwrap_err().message(),
        "Function has 1 args but you requested index -10"
    );
    let many = context.function(Abi::Cdecl, jit_int(), vec![jit_int(); 120]).unwrap();
    assert_eq!(
        many.arg(120).unwrap_err().message(),
        "Function has 120 args but you requested index 120"
    );
    assert_eq!(
        gnu_libjit::exception::describe_arg_index(0, 0),
        "Function has 0 args but you requested index 0"
    );
    assert_eq!(
        gnu_libjit::exception::describe_arg_index(9007199254740993, 10),
        "Function has 9007199254740993 args but you requested index 10"
    );
    assert_eq!(Exception::BuildNotStarted.message(), "No build is open");
    assert_eq!(Exception::BuildAlreadyStarted.message(), "A build is already open");
    assert_eq!(Exception::AlreadyCompiled.message(), "The function was compiled before");
    assert_eq!(
        Exception::UnboundLabel { label: 0 }.message(),
        "A branch goes to a label that was never bound"
    );
    assert_eq!(
        Exception::LabelBoundTwice { label: 0 }.message(),
        "A label was bound at more than one place"
    );
    assert_eq!(
        Exception::TooManyFunctions.message(),
        "The session cannot number another function"
    );
}

#[test]
fn a_branch_to_a_label_that_is_never_bound_fails_compilation() {
    let mut context = Context::new();
    context.build_start().unwrap();
    let mut func = context.function(Abi::Cdecl, jit_int(), vec![]).unwrap();
    let mut label = Label::new();
    func.insn_branch(&mut label);
    assert_eq!(label.number(), Some(0));
    assert_eq!(label.owner(), Some(func.id()));
    assert_eq!(func.compile(), Err(Exception::UnboundLabel { label: 0 }));
    assert!(!func.is_compiled());
    // The failed attempt left the function as it was: binding the label
    // mends it.
    func.insn_label(label);
    assert_eq!(func.compile(), Ok(()));
    assert_eq!(
        func.instructions(),
        &vec![Instruction::Branch { target: 0 }, Instruction::Bind { label: 0 }]
    );
}

#[test]
fn a_label_is_bound_at_most_once_by_the_function_that_numbered_it() {
    let mut context = Context::new();
    context.build_start().unwrap();
    let mut func = context.function(Abi::Cdecl, jit_int(), vec![]).unwrap();
    let mut label = Label::new();
    assert_eq!(label.number(), None);
    assert_eq!(label.owner(), None);
    func.insn_branch(&mut label);
    func.insn_branch(&mut label);
    assert_eq!(label.number(), Some(0));
    // Binding takes the label: there is no second binding of it to write.
    func.insn_label(label);
    assert_eq!(func.label_position(0), Some(2));
    assert_eq!(func.labels()[0].binding, Binding::BoundAt { position: 2 });
    assert_eq!(func.labels()[0].reference, Some(0));
    assert_eq!(func.labels().len(), 1);
    assert_eq!(func.compile(), Ok(()));
}

#[test]
fn a_label_bound_twice_fails_compilation() {
    // Identifiers tell the functions of one session apart. A label that a
    // function of another session numbered can carry the identifier and a
    // number of this function: binding it binds that number once more, and
    // compilation reports it.
    let mut here = Context::new();
    let mut elsewhere = Context::new();
    here.build_start().unwrap();
    elsewhere.build_start().unwrap();
    let mut func = here.function(Abi::Cdecl, jit_int(), vec![]).unwrap();
    let mut other = elsewhere.function(Abi::Cdecl, jit_int(), vec![]).unwrap();
    let mut label = Label::new();
    let mut stray = Label::new();
    func.insn_branch(&mut label);
    other.insn_branch(&mut stray);
    assert!(func.owns_label(&stray));
    func.insn_label(label);
    assert_eq!(func.label_position(0), Some(1));
    func.insn_label(stray);
    assert_eq!(func.label_position(0), None);
    assert_eq!(func.labels()[0].binding, Binding::BoundTwice { first: 1, second: 2 });
    assert_eq!(func.compile(), Err(Exception::LabelBoundTwice { label: 0 }));
    assert!(!func.is_compiled());
}

#[test]
fn the_lowest_label_in_disorder_is_reported() {
    let mut context = Context::new();
    context.build_start().unwrap();
    let mut func = context.function(Abi::Cdecl, jit_int(), vec![]).unwrap();
    let mut first = Label::new();
    let mut second = Label::new();
    let mut third = Label::new();
    func.insn_branch(&mut first);
    func.insn_branch(&mut second);
    func.insn_branch(&mut third);
    func.insn_label(first);
    assert_eq!(func.compile(), Err(Exception::UnboundLabel { label: 1 }));
    func.insn_label(second);
    assert_eq!(func.compile(), Err(Exception::UnboundLabel { label: 2 }));
    func.insn_label(third);
    assert_eq!(func.compile(), Ok(()));
}

#[test]
fn several_branches_to_one_label_compile() {
    let mut context = Context::new();
    context.build_start().unwrap();
    let mut func = context.function(Abi::Cdecl, jit_int(), vec![jit_int()]).unwrap();
    let x = func.arg(0).unwrap();
    let mut end = Label::new();
    func.insn_branch_if(&x, &mut end);
    func.insn_branch_if_not(&x, &mut end);
    func.insn_branch(&mut end);
    func.insn_label(end);
    func.insn_return(x);
    assert_eq!(func.compile(), Ok(()));
    assert_eq!(func.label_position(0), Some(3));
    assert_eq!(func.label_position(1), None);
    assert_eq!(func.labels()[0].reference, Some(0));
}

#[test]
fn a_label_bound_before_any_branch_is_numbered_and_bound() {
    let mut context = Context::new();
    context.build_start().unwrap();
    let mut func = context.function(Abi::Cdecl, jit_int(), vec![]).unwrap();
    func.insn_label(Label::new());
    func.insn_label(Label::new());
    assert_eq!(func.labels().len(), 2);
    assert_eq!(func.labels()[0].binding, Binding::BoundAt { position: 0 });
    assert_eq!(func.labels()[1].binding, Binding::BoundAt { position: 1 });
    assert_eq!(func.labels()[0].reference, None);
    assert_eq!(
        func.instructions(),
        &vec![Instruction::Bind { label: 0 }, Instruction::Bind { label: 1 }]
    );
    assert_eq!(func.compile(), Ok(()));
}

#[test]
fn compiling_twice_is_an_error() {
    let mut context = Context::new();
    context.build_start().unwrap();
    let mut func = context.function(Abi::Cdecl, jit_int(), vec![]).unwrap();
    let one = func.create_int_constant(1);
    func.insn_return(one);
    assert_eq!(func.compile(), Ok(()));
    let before = func.instructions().clone();
    assert_eq!(func.compile(), Err(Exception::AlreadyCompiled));
    assert!(func.is_compiled());
    assert_eq!(func.instructions(), &before);
}

#[test]
fn the_session_opens_and_closes() {
    let mut context = Context::new();
    assert!(!context.is_building());
    assert!(matches!(
        context.function(Abi::Cdecl, jit_int(), vec![]),
        Err(Exception::BuildNotStarted)
    ));
    assert_eq!(context.build_start(), Ok(()));
    assert!(context.is_building());
    assert_eq!(context.build_start(), Err(Exception::BuildAlreadyStarted));
    assert!(context.is_building());
    let first = context.function(Abi::Cdecl, jit_int(), vec![]).unwrap();
    let second = context.function(Abi::Stdcall, jit_double(), vec![jit_int()]).unwrap();
    assert_eq!(first.id(), 0);
    assert_eq!(second.id(), 1);
    assert_eq!(second.abi(), Abi::Stdcall);
    assert_eq!(second.return_type(), jit_double());
    assert_eq!(second.params(), &vec![jit_int()]);
    assert_eq!(context.function_count(), 2);
    context.build_end();
    assert!(!context.is_building());
    assert!(matches!(
        context.function(Abi::Cdecl, jit_int(), vec![]),
        Err(Exception::BuildNotStarted)
    ));
    assert_eq!(context.function_count(), 2);
    assert_eq!(context.build_start(), Ok(()));
}

#[test]
fn values_of_another_function_are_not_owned() {
    let mut context = Context::new();
    context.build_start().unwrap();
    let mut f = context.function(Abi::Cdecl, jit_int(), vec![jit_int()]).unwrap();
    let mut g = context.function(Abi::Cdecl, jit_int(), vec![jit_int()]).unwrap();
    let a = f.arg(0).unwrap();
    let b = g.arg(0).unwrap();
    assert!(f.owns(&a));
    assert!(!f.owns(&b));
    assert!(!g.owns(&a));
    assert!(!f.compatible(&a, &b));
    let mut label = Label::new();
    assert!(f.owns_label(&label));
    f.insn_branch(&mut label);
    assert!(f.owns_label(&label));
    assert!(!g.owns_label(&label));
    let c = g.create_int_constant(2);
    assert!(g.compatible(&b, &c));
    let d = g.create_long_constant(2);
    assert!(!g.compatible(&b, &d));
}

#[test]
fn a_literal_zero_divisor_is_recognised() {
    let mut context = Context::new();
    context.build_start().unwrap();
    let mut func = context.function(Abi::Cdecl, jit_int(), vec![jit_int()]).unwrap();
    let x = func.arg(0).unwrap();
    let zero = func.create_int_constant(0);
    let one = func.create_int_constant(1);
    let float_zero = func.create_float64_constant(0.0f64.to_bits());
    let minus_zero = func.create_float64_constant((-0.0f64).to_bits());
    let null = func.create_void_ptr_constant(0);
    let sum = func.insn_add(&zero, &zero);
    assert!(func.is_zero_constant(&zero));
    assert!(!func.is_zero_constant(&one));
    assert!(func.is_zero_constant(&float_zero));
    assert!(func.is_zero_constant(&minus_zero));
    assert!(func.is_zero_constant(&null));
    assert!(!func.is_zero_constant(&x));
    assert!(!func.is_zero_constant(&sum));
}

#[test]
fn constants_keep_type_and_payload() {
    let c = Constant::new_long(-5);
    assert_eq!(c.constant_type(), JitType { kind: Kind::Long, depth: 0 });
    assert_eq!(c.literal(), Literal::Signed(-5));
    assert!(!c.is_zero());
    let c = Constant::new_i8(-128);
    assert_eq!(c.constant_type(), Context::sbyte_type());
    assert_eq!(c.literal(), Literal::Signed(-128));
    let c = Constant::new_float64(2.5f64.to_bits());
    assert_eq!(c.constant_type(), Context::float64_type());
    assert_eq!(c.literal(), Literal::Float64(0x4004_0000_0000_0000));
    assert!(Constant::new_long(0).is_zero());
    assert!(Constant::new_float64(0x8000_0000_0000_0000).is_zero());
    assert!(!Constant::new_float64(1).is_zero());
}

#[test]
fn wide_numbers_are_cut_to_the_width_of_a_c_int() {
    let mut context = Context::new();
    context.build_start().unwrap();
    let mut func = context.function(Abi::Cdecl, jit_int(), vec![]).unwrap();
    let a = func.create_sys_int_constant(0x1_0000_0005);
    let b = func.create_sys_uint_constant(0xffff_ffff_0000_0007);
    let c = func.create_sys_int_constant(-1);
    let d = func.create_nint_constant(-7);
    let e = func.create_sysint_constant(9);
    assert_eq!(a.value_type(), Context::int_type());
    assert_eq!(b.value_type(), Context::uint_type());
    assert_eq!(d.value_type(), Context::nint_type());
    assert_eq!(e.value_type(), Context::int_type());
    let literals: Vec<Literal> = func
        .instructions()
        .iter()
        .map(|i| match i {
            Instruction::Const { constant, .. } => constant.literal(),
            _ => unreachable!(),
        })
        .collect();
    assert_eq!(
        literals,
        vec![
            Literal::Signed(5),
            Literal::Unsigned(7),
            Literal::Signed(-1),
            Literal::Signed(-7),
            Literal::Signed(9),
        ]
    );
    let _ = c;
}

#[test]
fn types_are_equal_when_built_alike() {
    let int = Context::int_type();
    let p = int.pointer_to();
    let pp = p.pointer_to();
    assert_eq!(p, Context::int_type().pointer_to());
    assert_ne!(p, int);
    assert_ne!(p, pp);
    assert_eq!(pp.pointee(), Some(p));
    assert_eq!(p.pointee(), Some(int));
    assert_eq!(int.pointee(), None);
    assert_eq!(Context::void_type().pointer_to(), Context::void_ptr_type());
    assert!(Context::void_ptr_type().is_void_pointer());
    assert!(!p.is_void_pointer());
    assert!(p.is_pointer());
    assert!(Context::void_type().is_void());
    assert!(!Context::void_ptr_type().is_void());
    assert!(Context::float64_type().is_float());
    assert!(Context::ulong_type().is_integer());
    assert!(!Context::float64_type().is_integer());
    assert_eq!(Context::void_type().size(8), 0);
    assert_eq!(Context::sbyte_type().size(8), 1);
    assert_eq!(Context::ubyte_type().size(8), 1);
    assert_eq!(Context::short_type().size(8), 2);
    assert_eq!(Context::ushort_type().size(8), 2);
    assert_eq!(Context::int_type().size(8), 4);
    assert_eq!(Context::uint_type().size(8), 4);
    assert_eq!(Context::nint_type().size(8), 8);
    assert_eq!(Context::nuint_type().size(8), 8);
    assert_eq!(Context::long_type().size(8), 8);
    assert_eq!(Context::float64_type().size(8), 8);
    assert_eq!(p.size(8), 8);
    assert_eq!(p.size(4), 4);
    assert_eq!(Context::nint_type().size(4), 4);
    assert_eq!(Context::nuint_type().size(4), 4);
    assert_eq!(Context::long_type().size(4), 8);
    assert_eq!(Context::float64_type().size(4), 8);
    assert_eq!(Context::int_type().size(4), 4);
    assert_eq!(Abi::Cdecl.tag(), 0);
    assert_eq!(Abi::VarArg.tag(), 1);
    assert_eq!(Abi::Stdcall.tag(), 2);
    assert_eq!(Abi::Fastcall.tag(), 3);
}

#[test]
fn a_typed_pointer_loads_and_stores_its_own_type() {
    let mut context = Context::new();
    context.build_start().unwrap();
    let int = Context::int_type();
    let mut func = context.function(Abi::Cdecl, int, vec![int.pointer_to(), int]).unwrap();
    let p = func.arg(0).unwrap();
    let x = func.arg(1).unwrap();
    let d = func.create_float64_constant(1.5f64.to_bits());
    assert!(func.loadable(&p));
    assert!(!func.loadable(&x));
    assert!(func.storable(&p, &x));
    assert!(!func.storable(&p, &d));
    assert!(!func.storable(&x, &x));
    let slot = func.alloca(4);
    assert!(!func.loadable(&slot));
    assert!(func.storable(&slot, &d));
    func.insn_store(&slot, &d);
    assert!(func.loadable(&slot));
    assert_eq!(func.values()[slot.index].stored, Some(Context::float64_type()));
    let read = func.insn_load(&p);
    assert_eq!(read.value_type(), int);
    assert!(func.returnable(&read));
    assert!(func.testable(&read));
    func.insn_return(read);
    assert_eq!(func.compile(), Ok(()));
}

#[test]
fn a_void_function_returns_without_a_value() {
    let mut context = Context::new();
    context.build_start().unwrap();
    let mut func = context.function(Abi::Cdecl, Context::void_type(), vec![jit_int()]).unwrap();
    let x = func.arg(0).unwrap();
    assert!(!func.returnable(&x));
    let called = func.insn_call_native(0x1234, vec![x, x], Some(jit_double()));
    assert_eq!(called.value_type(), jit_double());
    assert!(func.passable(&vec![x, called]));
    let nothing = func.insn_call_native(0x5678, vec![], None);
    assert!(!func.passable(&vec![x, nothing]));
    func.insn_return_void();
    assert_eq!(func.compile(), Ok(()));
    assert_eq!(func.call_arguments(), &vec![0usize, 0usize]);
    assert_eq!(
        func.instructions(),
        &vec![
            Instruction::CallNative {
                dest: 1,
                function: 0x1234,
                first_arg: 0,
                arg_count: 2,
                return_type: jit_double(),
            },
            Instruction::CallNative {
                dest: 2,
                function: 0x5678,
                first_arg: 2,
                arg_count: 0,
                return_type: Context::void_type(),
            },
            Instruction::ReturnVoid,
        ]
    );
    assert_eq!(func.values()[1].definition, Some(0));
    assert_eq!(func.values()[0].definition, None);
}

#[test]
fn signatures_are_equal_when_built_alike() {
    let int = Context::int_type();
    let double = Context::float64_type();
    let a = Signature::new(Abi::Cdecl, int, vec![int, double]);
    let b = Signature::new(Abi::Cdecl, int, vec![int, double]);
    assert!(a.same_as(&b));
    assert!(a.same_as(&a.duplicate()));
    assert!(!a.same_as(&Signature::new(Abi::Stdcall, int, vec![int, double])));
    assert!(!a.same_as(&Signature::new(Abi::Cdecl, double, vec![int, double])));
    assert!(!a.same_as(&Signature::new(Abi::Cdecl, int, vec![double, int])));
    assert!(!a.same_as(&Signature::new(Abi::Cdecl, int, vec![int])));
    assert!(!a.same_as(&Signature::new(Abi::Cdecl, int, vec![int, double, int])));
}

#[test]
fn a_function_knows_its_signature_and_those_of_its_calls() {
    let int = Context::int_type();
    let double = Context::float64_type();
    let mut context = Context::new();
    context.build_start().unwrap();
    let wanted = Signature::new(Abi::Fastcall, double, vec![int, double]);
    let mut func = context.function_of(wanted.duplicate()).unwrap();
    assert!(func.signature().same_as(&wanted));
    let x = func.arg(0).unwrap();
    let y = func.arg(1).unwrap();
    let r = func.insn_call_native(0x1000, vec![y, x, y], Some(int));
    func.insn_return(y);
    let call = func.call_signature(0).unwrap();
    assert!(call.same_as(&Signature::new(Abi::Cdecl, int, vec![double, int, double])));
    assert!(func.call_signature(1).is_none());
    assert!(func.call_signature(2).is_none());
    assert_eq!(r.value_type(), int);
    assert_eq!(func.compile(), Ok(()));
    context.build_end();
    let mut closed = Context::new();
    assert!(matches!(closed.function_of(wanted), Err(Exception::BuildNotStarted)));
}
