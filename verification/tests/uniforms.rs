use pixel2d::command::{Command, UniformValue};
use pixel2d::shaders::{check_compile, check_link, ShaderError, ShaderProgram, ShaderSet};
use pixel2d::uniform::{SharedUniform, Uniform, UniformError};

#[test]
fn redundant_bind_eliminated() {
    let mut shaders = ShaderSet::new();
    shaders.add(ShaderProgram::new(7));
    shaders.add(ShaderProgram::new(8));

    let mut q: Vec<Command> = Vec::new();

    shaders.use_shader(0, &mut q);
    assert_eq!(q, vec![Command::BindProgram { id: 7 }]);

    // Binding the program that is already active sends nothing.
    shaders.use_shader(0, &mut q);
    assert_eq!(q.len(), 1);

    shaders.use_shader(1, &mut q);
    assert_eq!(q, vec![Command::BindProgram { id: 7 }, Command::BindProgram { id: 8 }]);

    shaders.unuse_shader(&mut q);
    assert_eq!(q.len(), 3);
    assert_eq!(q[2], Command::BindProgram { id: 0 });

    // Unbinding with nothing bound sends nothing.
    shaders.unuse_shader(&mut q);
    assert_eq!(q.len(), 3);
}

#[test]
fn uniform_rejects_negative_location() {
    let program = ShaderProgram::new(9);
    let r: Result<Uniform<i32>, UniformError> = Uniform::new(1, -1, &program);

    assert!(matches!(r, Err(UniformError::IncorrectLocation)));
}

#[test]
fn uniform_set_accept_set_uploads_once() {
    let mut shaders = ShaderSet::new();
    shaders.add(ShaderProgram::new(7));

    let mut q: Vec<Command> = Vec::new();
    shaders.use_shader(0, &mut q);
    q.clear();

    let mut u: Uniform<i32> = shaders.make_uniform(5, 3).unwrap();

    u.set_value(5);
    u.accept(&shaders, &mut q);
    u.set_value(5);
    u.accept(&shaders, &mut q);

    // The round trip issued exactly one upload.
    assert_eq!(q, vec![Command::Upload { location: 3, value: UniformValue::Int(5) }]);

    // A genuinely new value uploads again, once.
    u.set_value(6);
    u.accept(&shaders, &mut q);
    u.accept(&shaders, &mut q);
    assert_eq!(q.len(), 2);
    assert_eq!(q[1], Command::Upload { location: 3, value: UniformValue::Int(6) });

    assert_eq!(u.get(), 6);
}

#[test]
fn uniform_set_always_uploads() {
    let mut shaders = ShaderSet::new();
    shaders.add(ShaderProgram::new(7));

    let mut q: Vec<Command> = Vec::new();
    shaders.use_shader(0, &mut q);
    q.clear();

    let mut u: Uniform<bool> = shaders.make_uniform(true, 2).unwrap();
    u.set(true, &shaders, &mut q);
    u.set(true, &shaders, &mut q);

    assert_eq!(
        q,
        vec![
            Command::Upload { location: 2, value: UniformValue::Bool(true) },
            Command::Upload { location: 2, value: UniformValue::Bool(true) },
        ]
    );
}

#[test]
fn shared_uniform_rejects_negative_location() {
    let r: Result<SharedUniform<i32>, UniformError> = SharedUniform::new(1, vec![(3, 0), (-2, 1)]);

    assert!(matches!(r, Err(UniformError::IncorrectLocation)));
}

#[test]
fn shared_uniform_tracks_programs_independently() {
    let mut shaders = ShaderSet::new();
    shaders.add(ShaderProgram::new(10));
    shaders.add(ShaderProgram::new(11));

    let mut q: Vec<Command> = Vec::new();

    // One value consumed by program 1 at location 4 and program 0 at 5.
    let mut shared: SharedUniform<i32> = SharedUniform::new(42, vec![(4, 1), (5, 0)]).unwrap();

    shared.set_value(7);

    shaders.use_shader(1, &mut q);
    q.clear();
    shared.accept(&shaders, &mut q);
    assert_eq!(q, vec![Command::Upload { location: 4, value: UniformValue::Int(7) }]);

    // Program 1 is synchronized now; program 0 is still stale.
    shared.accept(&shaders, &mut q);
    assert_eq!(q.len(), 1);

    shaders.use_shader(0, &mut q);
    q.clear();
    shared.accept(&shaders, &mut q);
    assert_eq!(q, vec![Command::Upload { location: 5, value: UniformValue::Int(7) }]);

    // And exactly once.
    shared.accept(&shaders, &mut q);
    assert_eq!(q.len(), 1);

    assert_eq!(shared.get(), 7);
}

#[test]
fn shared_uniform_set_value_invalidates_all_consumers() {
    let mut shaders = ShaderSet::new();
    shaders.add(ShaderProgram::new(10));
    shaders.add(ShaderProgram::new(11));

    let mut q: Vec<Command> = Vec::new();
    let mut shared: SharedUniform<u32> = SharedUniform::new(1, vec![(4, 1), (5, 0)]).unwrap();

    shaders.use_shader(1, &mut q);
    shared.accept(&shaders, &mut q);
    shaders.use_shader(0, &mut q);
    shared.accept(&shaders, &mut q);

    shared.set_value(2);
    q.clear();

    shared.accept(&shaders, &mut q);
    shaders.use_shader(1, &mut q);
    shared.accept(&shaders, &mut q);

    assert_eq!(
        q,
        vec![
            Command::Upload { location: 5, value: UniformValue::UInt(2) },
            Command::BindProgram { id: 11 },
            Command::Upload { location: 4, value: UniformValue::UInt(2) },
        ]
    );
}

#[test]
fn make_shared_binds_each_listed_program() {
    let mut shaders = ShaderSet::new();
    shaders.add(ShaderProgram::new(20));
    shaders.add(ShaderProgram::new(21));

    let mut q: Vec<Command> = Vec::new();
    let shared: Result<SharedUniform<i32>, UniformError> =
        shaders.make_shared(0, vec![(1, 1), (2, 0)], &mut q);

    assert!(shared.is_ok());
    assert_eq!(q, vec![Command::BindProgram { id: 21 }, Command::BindProgram { id: 20 }]);
    assert_eq!(shaders.used(), Some(0));
}

#[test]
fn shader_set_delete_deletes_each_program_once() {
    let mut shaders = ShaderSet::new();
    shaders.add(ShaderProgram::new(7));
    shaders.add(ShaderProgram::new(8));

    let mut q: Vec<Command> = Vec::new();
    shaders.use_shader(1, &mut q);
    q.clear();

    shaders.delete(&mut q);

    assert_eq!(
        q,
        vec![
            Command::BindProgram { id: 0 },
            Command::DeleteProgram { id: 7 },
            Command::DeleteProgram { id: 8 },
        ]
    );
}

#[test]
fn compile_and_link_failures_carry_the_diagnostic() {
    assert_eq!(check_compile(true, String::new()), Ok(()));
    assert_eq!(
        check_compile(false, String::from("bad token")),
        Err(ShaderError::CompileError(String::from("bad token"))),
    );

    assert_eq!(check_link(true, String::new()), Ok(()));
    assert_eq!(
        check_link(false, String::from("missing main")),
        Err(ShaderError::LinkError(String::from("missing main"))),
    );
}
