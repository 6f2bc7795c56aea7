use app_repository::schemas::artifact::ArtifactExtensions;

#[test]
fn classifies_android_package() {
    assert_eq!(ArtifactExtensions::from_filename("build.apk"), ArtifactExtensions::Apk);
}

#[test]
fn classifies_ios_package() {
    assert_eq!(ArtifactExtensions::from_filename("app.ipa"), ArtifactExtensions::Ipa);
}

#[test]
fn classifies_android_bundle() {
    assert_eq!(ArtifactExtensions::from_filename("release.aab"), ArtifactExtensions::Aab);
}

#[test]
fn short_names_fall_back_to_bundle() {
    assert_eq!(ArtifactExtensions::from_filename(""), ArtifactExtensions::Aab);
    assert_eq!(ArtifactExtensions::from_filename("a"), ArtifactExtensions::Aab);
    assert_eq!(ArtifactExtensions::from_filename("pk"), ArtifactExtensions::Aab);
}

#[test]
fn unknown_suffixes_fall_back_to_bundle() {
    assert_eq!(ArtifactExtensions::from_filename("notes.txt"), ArtifactExtensions::Aab);
    assert_eq!(ArtifactExtensions::from_filename("archive.zip"), ArtifactExtensions::Aab);
    assert_eq!(ArtifactExtensions::from_filename("apk.tar"), ArtifactExtensions::Aab);
}

#[test]
fn three_letter_names_are_classified() {
    assert_eq!(ArtifactExtensions::from_filename("apk"), ArtifactExtensions::Apk);
    assert_eq!(ArtifactExtensions::from_filename("ipa"), ArtifactExtensions::Ipa);
}

#[test]
fn classification_ignores_case() {
    assert_eq!(ArtifactExtensions::from_filename("BUILD.APK"), ArtifactExtensions::Apk);
    assert_eq!(ArtifactExtensions::from_filename("App.Ipa"), ArtifactExtensions::Ipa);
    assert_eq!(ArtifactExtensions::from_filename("x.aPk"), ArtifactExtensions::Apk);
}

#[test]
fn classification_counts_characters() {
    assert_eq!(ArtifactExtensions::from_filename("é.apk"), ArtifactExtensions::Apk);
    assert_eq!(ArtifactExtensions::from_filename("apé"), ArtifactExtensions::Aab);
    assert_eq!(ArtifactExtensions::from_filename("日本語"), ArtifactExtensions::Aab);
}

#[test]
fn extension_names() {
    assert_eq!(ArtifactExtensions::Ipa.to_string(), "Ipa");
    assert_eq!(ArtifactExtensions::Apk.to_string(), "Apk");
    assert_eq!(ArtifactExtensions::Aab.to_string(), "Aab");
    assert_eq!(ArtifactExtensions::Ipa.to_lowercase(), "ipa");
    assert_eq!(ArtifactExtensions::Apk.to_lowercase(), "apk");
    assert_eq!(ArtifactExtensions::Aab.to_lowercase(), "aab");
}
