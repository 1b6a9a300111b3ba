use miniview::errors::ImportError;
use miniview::errors::MiniViewError;

#[test]
fn every_top_level_error_has_its_message() {
    assert_eq!(
        MiniViewError::EmptyInputPath.message(),
        "No path to an image was provided."
    );
    assert_eq!(
        MiniViewError::CliUnableToDetermineInputMode.message(),
        "Unable to determine input mode."
    );
    assert_eq!(
        MiniViewError::SendStopError.message(),
        "Unable to signal window to stop showing"
    );
    assert_eq!(
        MiniViewError::UnableToCreateWindow.message(),
        "Unable to create a window to display the image."
    );
    assert_eq!(
        MiniViewError::UnableToMapImage.message(),
        "Unable to map the image to a texture."
    );
    assert_eq!(
        MiniViewError::ViewThreadFailedToJoin.message(),
        "View thread exited improperly"
    );
}

#[test]
fn every_import_error_has_its_message() {
    assert_eq!(
        ImportError::OnPathNotFound.message(),
        "Provided path to image could not be found or loaded."
    );
    assert_eq!(
        ImportError::OnStdinUnableToRead.message(),
        "Unable to read from the stdin."
    );
    assert_eq!(
        ImportError::OnStdinPathWasEmpty.message(),
        "Given path to image was empty."
    );
    assert_eq!(
        ImportError::OnStdinBytesStreamWasEmpty.message(),
        "Stdin was empty."
    );
    assert_eq!(
        ImportError::OnStdinBytesUnableToGuessOrLoadFormat.message(),
        "The input received from stdin could not be loaded."
    );
}

#[test]
fn an_import_failure_carries_its_cause_through_the_message() {
    let wrapped = MiniViewError::FailedToImport(ImportError::OnPathNotFound);
    assert_eq!(wrapped.message(), ImportError::OnPathNotFound.message());
}

#[test]
fn import_errors_convert_to_the_top_level_type() {
    let converted = MiniViewError::from(ImportError::OnStdinUnableToRead);
    assert_eq!(
        converted,
        MiniViewError::FailedToImport(ImportError::OnStdinUnableToRead)
    );
}
