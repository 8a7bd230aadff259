use deploytix::pkgdeps::error::Error;

#[test]
fn every_error_has_its_text() {
    let failed = Error::CommandFailed {
        command: "pacman -Si x".to_string(),
        stderr: "not found".to_string(),
    };
    assert_eq!(failed.to_text(), "command failed: pacman -Si x\nnot found");
    assert_eq!(
        Error::CommandNotFound("expac".to_string()).to_text(),
        "required command not found: expac"
    );
    assert_eq!(Error::Invalid("no such package".to_string()).to_text(), "no such package");
    assert_eq!(Error::Io("disk full".to_string()).to_text(), "I/O error: disk full");
}
