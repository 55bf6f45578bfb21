use crate::utils::utils::{spec_eq_ci, str_eq_ci};
use vstd::prelude::*;
use vstd::string::*;

verus! {

/// The color used for a language that the table does not know.
pub open spec fn spec_default_lang_color() -> Seq<char> {
    "#818181"@
}

/// Case-insensitive language-name to hex-color table, with a fixed
/// fallback color for unknown names.
pub open spec fn spec_lang_color(name: Seq<char>) -> Seq<char> {
    if spec_eq_ci(name, "rust"@) {
        "#dea584"@
    } else if spec_eq_ci(name, "c"@) {
        "#555555"@
    } else if spec_eq_ci(name, "c++"@) {
        "#f34b7d"@
    } else if spec_eq_ci(name, "c#"@) {
        "#178600"@
    } else if spec_eq_ci(name, "go"@) {
        "#00ADD8"@
    } else if spec_eq_ci(name, "java"@) {
        "#b07219"@
    } else if spec_eq_ci(name, "javascript"@) {
        "#f1e05a"@
    } else if spec_eq_ci(name, "typescript"@) {
        "#3178c6"@
    } else if spec_eq_ci(name, "python"@) {
        "#3572A5"@
    } else if spec_eq_ci(name, "ruby"@) {
        "#701516"@
    } else if spec_eq_ci(name, "php"@) {
        "#4F5D95"@
    } else if spec_eq_ci(name, "swift"@) {
        "#F05138"@
    } else if spec_eq_ci(name, "kotlin"@) {
        "#A97BFF"@
    } else if spec_eq_ci(name, "scala"@) {
        "#c22d40"@
    } else if spec_eq_ci(name, "haskell"@) {
        "#5e5086"@
    } else if spec_eq_ci(name, "lua"@) {
        "#000080"@
    } else if spec_eq_ci(name, "shell"@) {
        "#89e051"@
    } else if spec_eq_ci(name, "html"@) {
        "#e34c26"@
    } else if spec_eq_ci(name, "css"@) {
        "#663399"@
    } else if spec_eq_ci(name, "dart"@) {
        "#00B4AB"@
    } else if spec_eq_ci(name, "elixir"@) {
        "#6e4a7e"@
    } else if spec_eq_ci(name, "zig"@) {
        "#ec915c"@
    } else if spec_eq_ci(name, "vue"@) {
        "#41b883"@
    } else if spec_eq_ci(name, "ocaml"@) {
        "#ef7a08"@
    } else if spec_eq_ci(name, "perl"@) {
        "#0298c3"@
    } else if spec_eq_ci(name, "r"@) {
        "#198CE7"@
    } else {
        spec_default_lang_color()
    }
}

/// Look a language's display color up by name, case-insensitively;
/// unknown names get the fixed default color.
pub fn get_lang_color(lang_name: &String) -> (r: String)
    ensures
        r@ == spec_lang_color(lang_name@),
{
    let l = lang_name.as_str();
    if str_eq_ci(l, "rust") {
        String::from_str("#dea584")
    } else if str_eq_ci(l, "c") {
        String::from_str("#555555")
    } else if str_eq_ci(l, "c++") {
        String::from_str("#f34b7d")
    } else if str_eq_ci(l, "c#") {
        String::from_str("#178600")
    } else if str_eq_ci(l, "go") {
        String::from_str("#00ADD8")
    } else if str_eq_ci(l, "java") {
        String::from_str("#b07219")
    } else if str_eq_ci(l, "javascript") {
        String::from_str("#f1e05a")
    } else if str_eq_ci(l, "typescript") {
        String::from_str("#3178c6")
    } else if str_eq_ci(l, "python") {
        String::from_str("#3572A5")
    } else if str_eq_ci(l, "ruby") {
        String::from_str("#701516")
    } else if str_eq_ci(l, "php") {
        String::from_str("#4F5D95")
    } else if str_eq_ci(l, "swift") {
        String::from_str("#F05138")
    } else if str_eq_ci(l, "kotlin") {
        String::from_str("#A97BFF")
    } else if str_eq_ci(l, "scala") {
        String::from_str("#c22d40")
    } else if str_eq_ci(l, "haskell") {
        String::from_str("#5e5086")
    } else if str_eq_ci(l, "lua") {
        String::from_str("#000080")
    } else if str_eq_ci(l, "shell") {
        String::from_str("#89e051")
    } else if str_eq_ci(l, "html") {
        String::from_str("#e34c26")
    } else if str_eq_ci(l, "css") {
        String::from_str("#663399")
    } else if str_eq_ci(l, "dart") {
        String::from_str("#00B4AB")
    } else if str_eq_ci(l, "elixir") {
        String::from_str("#6e4a7e")
    } else if str_eq_ci(l, "zig") {
        String::from_str("#ec915c")
    } else if str_eq_ci(l, "vue") {
        String::from_str("#41b883")
    } else if str_eq_ci(l, "ocaml") {
        String::from_str("#ef7a08")
    } else if str_eq_ci(l, "perl") {
        String::from_str("#0298c3")
    } else if str_eq_ci(l, "r") {
        String::from_str("#198CE7")
    } else {
        String::from_str("#818181")
    }
}

} // verus!
