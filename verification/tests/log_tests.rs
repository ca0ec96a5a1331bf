#[test]
fn test_log() {
    println!("info: {}", format!("hello, this is {} log", "info"));
    println!("warn: {}", format!("hello, this is {} log", "warn"));
    println!("warn: {}", format!("hello, this is {} log", "error"));
    println!("warn: {}", format!("hello, this is {} log", "debug"));
}
