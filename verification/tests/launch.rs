use server_supervisor::launch::{
    build_command, plan_launch, runtime_for, u32_decimal, Runtime, SubmissionEntry,
};

#[test]
fn runtime_python_for_py_suffix() {
    assert_eq!(runtime_for("server.py"), Runtime::Python);
    assert_eq!(runtime_for("a.b.c.py"), Runtime::Python);
    assert_eq!(runtime_for(".py"), Runtime::Python);
}

#[test]
fn runtime_javascript_for_everything_else() {
    assert_eq!(runtime_for("app.js"), Runtime::JavaScript);
    assert_eq!(runtime_for("server.pyc"), Runtime::JavaScript);
    assert_eq!(runtime_for("server.PY"), Runtime::JavaScript);
    assert_eq!(runtime_for("readme.txt"), Runtime::JavaScript);
    assert_eq!(runtime_for("py"), Runtime::JavaScript);
    assert_eq!(runtime_for(""), Runtime::JavaScript);
}

#[test]
fn python_command_with_port() {
    let c = build_command(Runtime::Python, "server.py", 8000);
    assert_eq!(c.program, "python3");
    assert_eq!(c.args, vec!["-u".to_string(), "server.py".to_string(), "8000".to_string()]);
}

#[test]
fn node_command_without_port() {
    let c = build_command(Runtime::JavaScript, "app.js", 0);
    assert_eq!(c.program, "node");
    assert_eq!(c.args, vec!["app.js".to_string()]);
}

#[test]
fn port_zero_and_below_add_no_argument() {
    for port in [0, -1, -8000, i32::MIN] {
        let c = build_command(Runtime::Python, "server.py", port);
        assert_eq!(c.args, vec!["-u".to_string(), "server.py".to_string()]);
        let c = build_command(Runtime::JavaScript, "app.js", port);
        assert_eq!(c.args, vec!["app.js".to_string()]);
    }
}

#[test]
fn positive_port_is_exactly_one_trailing_argument() {
    for (port, text) in [(1, "1"), (80, "80"), (65535, "65535"), (i32::MAX, "2147483647")] {
        let c = build_command(Runtime::JavaScript, "app.js", port);
        assert_eq!(c.args, vec!["app.js".to_string(), text.to_string()]);
    }
}

#[test]
fn decimal_rendering_is_exact() {
    assert_eq!(u32_decimal(0), "0");
    assert_eq!(u32_decimal(7), "7");
    assert_eq!(u32_decimal(10), "10");
    assert_eq!(u32_decimal(8000), "8000");
    assert_eq!(u32_decimal(1020304), "1020304");
    assert_eq!(u32_decimal(u32::MAX), "4294967295");
}

#[test]
fn plan_installs_dependencies_only_for_javascript() {
    assert!(plan_launch("app.js", 0).install_deps);
    assert!(plan_launch("weird.txt", 0).install_deps);
    assert!(!plan_launch("server.py", 8000).install_deps);
}

#[test]
fn plan_carries_the_full_command() {
    let p = plan_launch("server.py", 8000);
    assert_eq!(p.command.program, "python3");
    assert_eq!(
        p.command.args,
        vec!["-u".to_string(), "server.py".to_string(), "8000".to_string()]
    );
}

#[test]
fn submission_entry_derives_its_runtime() {
    let e = SubmissionEntry::new("server.py".to_string(), "./submission_1".to_string(), 8000);
    assert_eq!(e.runtime, Runtime::Python);
    assert_eq!(e.port, 8000);
    let p = e.plan();
    assert_eq!(p.command.program, "python3");
    let e = SubmissionEntry::new("app.js".to_string(), ".".to_string(), 0);
    assert_eq!(e.runtime, Runtime::JavaScript);
    assert!(e.plan().install_deps);
}
