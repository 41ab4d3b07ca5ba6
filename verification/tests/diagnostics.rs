use resonance_bhop::diagnostics::{
    CommandOutput, EnvironmentDiagnostics, ServiceDiagnostic, collect_environment_diagnostics,
    process_listed, service_diagnostic,
};

fn output(success: bool, text: &str) -> CommandOutput {
    CommandOutput {
        success,
        stdout: text.as_bytes().to_vec(),
    }
}

#[test]
fn running_service_is_reported() {
    let query = output(true, "SERVICE_NAME: ViGEmBus\n        STATE              : 4  Running\n");
    assert_eq!(
        service_diagnostic(Some(&query)),
        ServiceDiagnostic { present: true, running: true }
    );
    let stopped = output(true, "STATE : 1 STOPPED");
    assert_eq!(
        service_diagnostic(Some(&stopped)),
        ServiceDiagnostic { present: true, running: false }
    );
}

#[test]
fn missing_service_is_absent() {
    let failed = output(false, "RUNNING");
    assert_eq!(service_diagnostic(Some(&failed)), ServiceDiagnostic::default());
    assert_eq!(service_diagnostic(None), ServiceDiagnostic::default());
}

#[test]
fn processes_match_in_any_case() {
    let tasks = output(true, "ds4windows.EXE   1234 Console  1  50,000 K");
    assert!(process_listed(Some(&tasks), "DS4Windows.exe"));
    assert!(!process_listed(Some(&tasks), "DualSenseX.exe"));
    assert!(!process_listed(None, "DS4Windows.exe"));
    let invalid_utf8 = CommandOutput {
        success: true,
        stdout: vec![0xff, b'D', b'S', b'4', b'w', b'i', b'n', b'd', b'o', b'w', b's', b'.', b'e', b'x', b'e'],
    };
    assert!(process_listed(Some(&invalid_utf8), "DS4Windows.exe"));
}

#[test]
fn environment_report_combines_queries() {
    let running = output(true, "RUNNING");
    let none = output(true, "INFO: No tasks are running which match the specified criteria.");
    let dsx = output(true, "DualSenseX.exe 99 Console");
    let diagnostics = collect_environment_diagnostics(Some(&running), None, Some(&none), Some(&dsx));
    assert_eq!(
        diagnostics,
        EnvironmentDiagnostics {
            vigem_bus: ServiceDiagnostic { present: true, running: true },
            hidhide: ServiceDiagnostic { present: false, running: false },
            ds4windows_running: false,
            dualsensex_running: true,
        }
    );
    assert_eq!(
        collect_environment_diagnostics(None, None, None, None),
        EnvironmentDiagnostics::default()
    );
}
