//! The custom dictionary: spoken phrases and what they are written as.
use vstd::prelude::*;
use crate::pattern::{build_word_pattern, replace_pass, run_replace_pass, word_pattern};

verus! {

/// A dictionary entry: a spoken phrase and its replacement.
#[derive(Debug, Clone)]
pub struct DictionaryEntry {
    pub id: String,
    pub spoken_phrase: String,
    pub replacement: String,
    pub category: Option<String>,
    pub enabled: bool,
    pub use_count: u32,
}

/// The text of an optional text.
pub open spec fn opt_view(o: Option<String>) -> Option<Seq<char>> {
    match o {
        Some(s) => Some(s@),
        None => None,
    }
}

impl DictionaryEntry {
    /// A new entry as a user adds it: enabled and never used.
    pub fn new_entry(
        id: String,
        spoken_phrase: String,
        replacement: String,
        category: Option<String>,
    ) -> (r: Self)
        ensures
            r.id@ == id@,
            r.spoken_phrase@ == spoken_phrase@,
            r.replacement@ == replacement@,
            opt_view(r.category) == opt_view(category),
            r.enabled,
            r.use_count == 0,
    {
        DictionaryEntry { id, spoken_phrase, replacement, category, enabled: true, use_count: 0 }
    }
}

/// The text after each replacement is applied in turn: every whole-word,
/// case-insensitive occurrence of the spoken phrase becomes the replacement.
pub open spec fn replacements_result(text: Seq<char>, reps: Seq<(Seq<char>, Seq<char>)>) -> Seq<char>
    decreases reps.len(),
{
    if reps.len() == 0 {
        text
    } else {
        let last = reps.last();
        replace_pass(word_pattern(last.0), replacements_result(text, reps.drop_last()), last.1)
    }
}

/// The values of `(spoken phrase, replacement)` pairs.
pub open spec fn pairs_view(reps: Seq<(String, String)>) -> Seq<(Seq<char>, Seq<char>)> {
    reps.map_values(|p: (String, String)| (p.0@, p.1@))
}

/// Applies the dictionary's active replacements to a transcript, in the
/// order given.
pub fn apply_replacements(text: &str, replacements: &[(String, String)]) -> (r: String)
    ensures
        r@ == replacements_result(text@, pairs_view(replacements@)),
{
    let mut result = String::from_str(text);
    let n = replacements.len();
    let mut i: usize = 0;
    while i < n
        invariant
            n == replacements@.len(),
            i <= n,
            result@ == replacements_result(text@, pairs_view(replacements@.take(i as int))),
        decreases n - i,
    {
        assert(pairs_view(replacements@.take(i + 1)).drop_last() =~= pairs_view(
            replacements@.take(i as int),
        ));
        let pattern = build_word_pattern(replacements[i].0.as_str());
        result = run_replace_pass(pattern.as_str(), result, replacements[i].1.as_str());
        i = i + 1;
    }
    assert(replacements@.take(n as int) =~= replacements@);
    result
}

/// The phrases that the developer dictionary adds, with their replacements.
pub open spec fn developer_pairs() -> Seq<(Seq<char>, Seq<char>)> {
    seq![
        ("javascript"@, "JavaScript"@),
        ("typescript"@, "TypeScript"@),
        ("react"@, "React"@),
        ("next js"@, "Next.js"@),
        ("node js"@, "Node.js"@),
        ("vue js"@, "Vue.js"@),
        ("angular"@, "Angular"@),
        ("svelte"@, "Svelte"@),
        ("rust"@, "Rust"@),
        ("python"@, "Python"@),
        ("go lang"@, "Go"@),
        ("kubernetes"@, "Kubernetes"@),
        ("docker"@, "Docker"@),
        ("git hub"@, "GitHub"@),
        ("git lab"@, "GitLab"@),
        ("vs code"@, "VS Code"@),
        ("api"@, "API"@),
        ("rest api"@, "REST API"@),
        ("graph ql"@, "GraphQL"@),
        ("sql"@, "SQL"@),
        ("no sql"@, "NoSQL"@),
        ("postgres"@, "PostgreSQL"@),
        ("mongo db"@, "MongoDB"@),
        ("redis"@, "Redis"@),
        ("aws"@, "AWS"@),
        ("gcp"@, "GCP"@),
        ("azure"@, "Azure"@),
        ("terraform"@, "Terraform"@),
        ("c i c d"@, "CI/CD"@),
        ("dev ops"@, "DevOps"@),
        ("html"@, "HTML"@),
        ("css"@, "CSS"@),
        ("json"@, "JSON"@),
        ("yaml"@, "YAML"@),
        ("toml"@, "TOML"@),
        ("web socket"@, "WebSocket"@),
        ("o auth"@, "OAuth"@),
        ("jwt"@, "JWT"@),
        ("http"@, "HTTP"@),
        ("https"@, "HTTPS"@),
        ("url"@, "URL"@),
        ("cli"@, "CLI"@),
        ("gui"@, "GUI"@),
        ("i d e"@, "IDE"@),
        ("npm"@, "npm"@),
        ("yarn"@, "yarn"@),
        ("p n p m"@, "pnpm"@),
        ("webpack"@, "webpack"@),
        ("vite"@, "Vite"@),
        ("tailwind"@, "Tailwind CSS"@),
        ("camel case"@, "camelCase"@),
        ("snake case"@, "snake_case"@),
        ("kebab case"@, "kebab-case"@)
    ]
}
/// The developer dictionary, entry by entry: each spoken phrase and how it
/// is written, in the order they are added.
pub proof fn law_developer_table()
    ensures
        developer_pairs().len() == 53,
        developer_pairs()[0] == ("javascript"@, "JavaScript"@),
        developer_pairs()[1] == ("typescript"@, "TypeScript"@),
        developer_pairs()[2] == ("react"@, "React"@),
        developer_pairs()[3] == ("next js"@, "Next.js"@),
        developer_pairs()[4] == ("node js"@, "Node.js"@),
        developer_pairs()[5] == ("vue js"@, "Vue.js"@),
        developer_pairs()[6] == ("angular"@, "Angular"@),
        developer_pairs()[7] == ("svelte"@, "Svelte"@),
        developer_pairs()[8] == ("rust"@, "Rust"@),
        developer_pairs()[9] == ("python"@, "Python"@),
        developer_pairs()[10] == ("go lang"@, "Go"@),
        developer_pairs()[11] == ("kubernetes"@, "Kubernetes"@),
        developer_pairs()[12] == ("docker"@, "Docker"@),
        developer_pairs()[13] == ("git hub"@, "GitHub"@),
        developer_pairs()[14] == ("git lab"@, "GitLab"@),
        developer_pairs()[15] == ("vs code"@, "VS Code"@),
        developer_pairs()[16] == ("api"@, "API"@),
        developer_pairs()[17] == ("rest api"@, "REST API"@),
        developer_pairs()[18] == ("graph ql"@, "GraphQL"@),
        developer_pairs()[19] == ("sql"@, "SQL"@),
        developer_pairs()[20] == ("no sql"@, "NoSQL"@),
        developer_pairs()[21] == ("postgres"@, "PostgreSQL"@),
        developer_pairs()[22] == ("mongo db"@, "MongoDB"@),
        developer_pairs()[23] == ("redis"@, "Redis"@),
        developer_pairs()[24] == ("aws"@, "AWS"@),
        developer_pairs()[25] == ("gcp"@, "GCP"@),
        developer_pairs()[26] == ("azure"@, "Azure"@),
        developer_pairs()[27] == ("terraform"@, "Terraform"@),
        developer_pairs()[28] == ("c i c d"@, "CI/CD"@),
        developer_pairs()[29] == ("dev ops"@, "DevOps"@),
        developer_pairs()[30] == ("html"@, "HTML"@),
        developer_pairs()[31] == ("css"@, "CSS"@),
        developer_pairs()[32] == ("json"@, "JSON"@),
        developer_pairs()[33] == ("yaml"@, "YAML"@),
        developer_pairs()[34] == ("toml"@, "TOML"@),
        developer_pairs()[35] == ("web socket"@, "WebSocket"@),
        developer_pairs()[36] == ("o auth"@, "OAuth"@),
        developer_pairs()[37] == ("jwt"@, "JWT"@),
        developer_pairs()[38] == ("http"@, "HTTP"@),
        developer_pairs()[39] == ("https"@, "HTTPS"@),
        developer_pairs()[40] == ("url"@, "URL"@),
        developer_pairs()[41] == ("cli"@, "CLI"@),
        developer_pairs()[42] == ("gui"@, "GUI"@),
        developer_pairs()[43] == ("i d e"@, "IDE"@),
        developer_pairs()[44] == ("npm"@, "npm"@),
        developer_pairs()[45] == ("yarn"@, "yarn"@),
        developer_pairs()[46] == ("p n p m"@, "pnpm"@),
        developer_pairs()[47] == ("webpack"@, "webpack"@),
        developer_pairs()[48] == ("vite"@, "Vite"@),
        developer_pairs()[49] == ("tailwind"@, "Tailwind CSS"@),
        developer_pairs()[50] == ("camel case"@, "camelCase"@),
        developer_pairs()[51] == ("snake case"@, "snake_case"@),
        developer_pairs()[52] == ("kebab case"@, "kebab-case"@),
{
}


fn seed(spoken: &str, replacement: &str) -> (r: (String, String))
    ensures
        r.0@ == spoken@,
        r.1@ == replacement@,
{
    (String::from_str(spoken), String::from_str(replacement))
}

/// The developer dictionary: programming terms and how they are written.
#[verifier::rlimit(40)]
pub fn developer_dictionary() -> (r: Vec<(String, String)>)
    ensures
        pairs_view(r@) == developer_pairs(),
{
    let mut v: Vec<(String, String)> = Vec::new();
    v.push(seed("javascript", "JavaScript"));
    v.push(seed("typescript", "TypeScript"));
    v.push(seed("react", "React"));
    v.push(seed("next js", "Next.js"));
    v.push(seed("node js", "Node.js"));
    v.push(seed("vue js", "Vue.js"));
    v.push(seed("angular", "Angular"));
    v.push(seed("svelte", "Svelte"));
    v.push(seed("rust", "Rust"));
    v.push(seed("python", "Python"));
    v.push(seed("go lang", "Go"));
    v.push(seed("kubernetes", "Kubernetes"));
    v.push(seed("docker", "Docker"));
    v.push(seed("git hub", "GitHub"));
    v.push(seed("git lab", "GitLab"));
    v.push(seed("vs code", "VS Code"));
    v.push(seed("api", "API"));
    v.push(seed("rest api", "REST API"));
    v.push(seed("graph ql", "GraphQL"));
    v.push(seed("sql", "SQL"));
    v.push(seed("no sql", "NoSQL"));
    v.push(seed("postgres", "PostgreSQL"));
    v.push(seed("mongo db", "MongoDB"));
    v.push(seed("redis", "Redis"));
    v.push(seed("aws", "AWS"));
    v.push(seed("gcp", "GCP"));
    v.push(seed("azure", "Azure"));
    v.push(seed("terraform", "Terraform"));
    v.push(seed("c i c d", "CI/CD"));
    v.push(seed("dev ops", "DevOps"));
    v.push(seed("html", "HTML"));
    v.push(seed("css", "CSS"));
    v.push(seed("json", "JSON"));
    v.push(seed("yaml", "YAML"));
    v.push(seed("toml", "TOML"));
    v.push(seed("web socket", "WebSocket"));
    v.push(seed("o auth", "OAuth"));
    v.push(seed("jwt", "JWT"));
    v.push(seed("http", "HTTP"));
    v.push(seed("https", "HTTPS"));
    v.push(seed("url", "URL"));
    v.push(seed("cli", "CLI"));
    v.push(seed("gui", "GUI"));
    v.push(seed("i d e", "IDE"));
    v.push(seed("npm", "npm"));
    v.push(seed("yarn", "yarn"));
    v.push(seed("p n p m", "pnpm"));
    v.push(seed("webpack", "webpack"));
    v.push(seed("vite", "Vite"));
    v.push(seed("tailwind", "Tailwind CSS"));
    v.push(seed("camel case", "camelCase"));
    v.push(seed("snake case", "snake_case"));
    v.push(seed("kebab case", "kebab-case"));
    assert(pairs_view(v@) =~= developer_pairs());
    v
}

/// A developer-dictionary entry: enabled, never used, in the `developer`
/// category.
pub fn developer_entry(id: String, spoken_phrase: &str, replacement: &str) -> (r: DictionaryEntry)
    ensures
        r.id@ == id@,
        r.spoken_phrase@ == spoken_phrase@,
        r.replacement@ == replacement@,
        opt_view(r.category) == Some("developer"@),
        r.enabled,
        r.use_count == 0,
{
    DictionaryEntry::new_entry(
        id,
        String::from_str(spoken_phrase),
        String::from_str(replacement),
        Some(String::from_str("developer")),
    )
}

} // verus!
