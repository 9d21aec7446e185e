use mini_ops::command::{verdict, CommandOutput};

#[test]
fn verdict_of_a_run() {
    let done = CommandOutput { success: true, stdout: "out".to_string(), stderr: "warn".to_string() };
    let failed = CommandOutput { success: false, stdout: "out".to_string(), stderr: "boom".to_string() };
    assert_eq!(verdict(Ok(done)), Ok(()));
    assert_eq!(verdict(Ok(failed)), Err("boom".to_string()));
    assert_eq!(verdict(Err("not found".to_string())), Err("not found".to_string()));
}
