use at::config::Config;
use at::init::{
    bool_answer, bool_prompt, config_from_answers, roots_answer, roots_prompt, string_answer,
    string_prompt, theme_answer, theme_number, theme_prompt, InitAnswers,
};
use at::ui::theme::ThemeName;

#[test]
fn config_from_answers_updates_wizard_fields() {
    let answers = InitAnswers {
        install_shell_functions: false,
        enable_cd_hook: true,
        editor: "hx".to_owned(),
        search_roots: vec!["~/src".to_owned(), "/opt/projects".to_owned()],
        theme: ThemeName::Paper,
        start_from_git_root: false,
    };

    let config = config_from_answers(&answers);

    assert_eq!(config.open.editor, "hx");
    assert_eq!(config.search.roots, ["~/src", "/opt/projects"]);
    assert_eq!(config.general.theme, ThemeName::Paper);
    assert!(!config.general.start_from_git_root);
    assert!(config.history.record_shell_cd);
    assert_eq!(config.open.gui_editor, "code");
    assert!(config.history.record_atflow_opens);
}

#[test]
fn config_from_default_answers_is_the_default_config() {
    let answers = InitAnswers::defaults(None);
    assert_eq!(config_from_answers(&answers), Config::default());
}

#[test]
fn default_answers_take_a_non_blank_editor_env() {
    assert_eq!(InitAnswers::defaults(Some("hx".to_owned())).editor, "hx");
    assert_eq!(InitAnswers::defaults(Some("  ".to_owned())).editor, "nvim");
    assert_eq!(InitAnswers::defaults(None).editor, "nvim");
    let answers = InitAnswers::defaults(None);
    assert!(answers.install_shell_functions);
    assert!(!answers.enable_cd_hook);
    assert_eq!(answers.search_roots, ["~/work", "~/code", "~/Documents"]);
    assert_eq!(answers.theme, ThemeName::Mist);
    assert!(answers.start_from_git_root);
}

#[test]
fn yes_no_answers_fall_back_to_default() {
    assert!(bool_answer("", true));
    assert!(!bool_answer("", false));
    assert!(bool_answer("Y", false));
    assert!(bool_answer("yes", false));
    assert!(bool_answer("YES", false));
    assert!(!bool_answer("n", true));
    assert!(!bool_answer("No", true));
    assert!(bool_answer("maybe", true));
    assert!(!bool_answer("maybe", false));
}

#[test]
fn text_answer_keeps_default_when_empty() {
    assert_eq!(string_answer("", "nvim"), "nvim");
    assert_eq!(string_answer("hx", "nvim"), "hx");
}

#[test]
fn roots_answer_splits_trims_and_drops_empty_pieces() {
    let default = vec!["~/work".to_owned()];
    assert_eq!(roots_answer("", &default), ["~/work"]);
    assert_eq!(
        roots_answer(" ~/src , /opt/projects,, ", &default),
        ["~/src", "/opt/projects"]
    );
    assert_eq!(roots_answer(",", &default), Vec::<String>::new());
    assert_eq!(roots_answer("a", &default), ["a"]);
}

#[test]
fn theme_answer_reads_menu_numbers() {
    assert_eq!(theme_answer("", ThemeName::Ink), ThemeName::Ink);
    assert_eq!(theme_answer("1", ThemeName::Ink), ThemeName::Mist);
    assert_eq!(theme_answer("2", ThemeName::Mist), ThemeName::Ink);
    assert_eq!(theme_answer("3", ThemeName::Mist), ThemeName::Paper);
    assert_eq!(theme_answer("4", ThemeName::Paper), ThemeName::Paper);
    assert_eq!(theme_number(ThemeName::Mist), 1);
    assert_eq!(theme_number(ThemeName::Ink), 2);
    assert_eq!(theme_number(ThemeName::Paper), 3);
}

#[test]
fn prompts_show_the_answer_an_empty_line_gives() {
    assert_eq!(bool_prompt("Enable cd hook", false), "Enable cd hook [y/N]: ");
    assert_eq!(
        bool_prompt("Install shell functions", true),
        "Install shell functions [Y/n]: "
    );
    assert_eq!(string_prompt("Editor", "nvim"), "Editor [nvim]: ");
    let roots = vec!["~/work".to_owned(), "~/code".to_owned(), "~/Documents".to_owned()];
    assert_eq!(roots_prompt(&roots), "Search roots [~/work, ~/code, ~/Documents]: ");
    assert_eq!(roots_prompt(&Vec::new()), "Search roots []: ");
    assert_eq!(theme_prompt(ThemeName::Mist), "Theme 1) Mist 2) Ink 3) Paper [1]: ");
    assert_eq!(theme_prompt(ThemeName::Paper), "Theme 1) Mist 2) Ink 3) Paper [3]: ");
}
