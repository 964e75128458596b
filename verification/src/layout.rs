use vstd::prelude::*;

verus! {

/// The model used when none is chosen.
pub open spec fn default_model() -> Seq<char> {
    "base.en"@
}

/// The name of the default model.
pub fn default_model_name() -> (m: String)
    ensures
        m@ == default_model(),
{
    String::from_str("base.en")
}

/// The port the server listens on when none is chosen.
pub const DEFAULT_PORT: u16 = 8080;

/// Where the whisper.cpp checkout lives, relative to the app's data directory.
pub open spec fn repo_components() -> Seq<Seq<char>> {
    seq!["whisper.cpp"@]
}

/// Where the built server binary lives, relative to the app's data directory.
pub open spec fn binary_components() -> Seq<Seq<char>> {
    seq!["whisper.cpp"@, "build"@, "bin"@, "whisper-server"@]
}

/// The file name of a model's weights.
pub open spec fn model_file(model: Seq<char>) -> Seq<char> {
    "ggml-"@ + model + ".bin"@
}

/// Where a model's weights live, relative to the app's data directory.
pub open spec fn model_components(model: Seq<char>) -> Seq<Seq<char>> {
    seq!["whisper.cpp"@, "models"@, model_file(model)]
}

/// The checkout directory, as components below the app's data directory.
pub fn whisper_dir() -> (parts: Vec<String>)
    ensures
        parts.deep_view() == repo_components(),
{
    let mut parts: Vec<String> = Vec::new();
    parts.push(String::from_str("whisper.cpp"));
    proof {
        assert(parts.deep_view() =~= repo_components());
    }
    parts
}

/// The server binary, as components below the app's data directory.
pub fn whisper_binary() -> (parts: Vec<String>)
    ensures
        parts.deep_view() == binary_components(),
{
    let mut parts: Vec<String> = Vec::new();
    parts.push(String::from_str("whisper.cpp"));
    parts.push(String::from_str("build"));
    parts.push(String::from_str("bin"));
    parts.push(String::from_str("whisper-server"));
    proof {
        assert(parts.deep_view() =~= binary_components());
    }
    parts
}

/// The file name `ggml-<model>.bin` of a model's weights.
pub fn model_file_name(model: &str) -> (name: String)
    ensures
        name@ == model_file(model@),
{
    let name = String::from_str("ggml-");
    let name = name.concat(model);
    name.concat(".bin")
}

/// A model's weights, as components below the app's data directory.
pub fn model_path(model: &str) -> (parts: Vec<String>)
    ensures
        parts.deep_view() == model_components(model@),
{
    let mut parts: Vec<String> = Vec::new();
    parts.push(String::from_str("whisper.cpp"));
    parts.push(String::from_str("models"));
    let file = model_file_name(model);
    parts.push(file);
    proof {
        assert(parts.deep_view() =~= model_components(model@));
    }
    parts
}


/// The checkout is `whisper.cpp` in the data directory, the server binary is
/// `build/bin/whisper-server` in it, and a model `m` is `models/ggml-m.bin` in it;
/// the default model is `base.en` and the default port 8080.
pub proof fn law_install_layout(model: Seq<char>)
    ensures
        repo_components() == seq!["whisper.cpp"@],
        binary_components() == seq!["whisper.cpp"@, "build"@, "bin"@, "whisper-server"@],
        model_components(model) == seq!["whisper.cpp"@, "models"@, "ggml-"@ + model + ".bin"@],
        default_model() == "base.en"@,
        DEFAULT_PORT == 8080,
{
}

} // verus!
