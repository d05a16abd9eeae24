use vulkan_context::sink::{compose_line, diagnostic_line};

#[test]
fn line_layout() {
    assert_eq!(compose_line("error", "general", "x"), "[Debug][error][general] x");
    assert_eq!(compose_line("", "", ""), "[Debug][][] ");
}

#[test]
fn single_flags_are_named_in_lower_case() {
    assert_eq!(diagnostic_line(0x1000, 0x2, "boom"), "[Debug][error][validation] boom");
    assert_eq!(diagnostic_line(0x100, 0x4, "slow"), "[Debug][warning][performance] slow");
    assert_eq!(diagnostic_line(0x10, 0x1, "hi"), "[Debug][info][general] hi");
    assert_eq!(diagnostic_line(0x1, 0x1, ""), "[Debug][verbose][general] ");
}

#[test]
fn combined_flags_are_joined() {
    assert_eq!(diagnostic_line(0x1001, 0x3, "m"), "[Debug][verbose | error][general | validation] m");
}

#[test]
fn many_lines_stay_whole() {
    let mut lines = Vec::new();
    for i in 0..50 {
        lines.push(diagnostic_line(0x1000, 0x2, &format!("message {i}")));
    }
    assert_eq!(lines.len(), 50);
    for (i, l) in lines.iter().enumerate() {
        assert_eq!(l, &format!("[Debug][error][validation] message {i}"));
        assert!(!l.contains('\n'));
    }
}
