use lilia_backend::formulas::{
    seed_system_formulas, slugify, Formula, FormulaData, FormulaManager, FormulaUpdate,
};
use lilia_backend::recent_files::{RecentFilesData, RecentFilesManager};
use lilia_backend::settings::{
    default_auto_save_delay, default_font_family, default_font_size, default_preview_font_size,
    default_tab_size, default_theme, default_true, Settings, SettingsManager, WindowState,
};

#[test]
fn default_values() {
    assert_eq!(default_font_size(), 14);
    assert_eq!(default_font_family(), "JetBrains Mono, Consolas, monospace");
    assert_eq!(default_tab_size(), 2);
    assert!(default_true());
    assert_eq!(default_theme(), "dark");
    assert_eq!(default_preview_font_size(), 16);
    assert_eq!(default_auto_save_delay(), 5000);
}

#[test]
fn settings_default_record() {
    let s = Settings::default();
    assert_eq!(s.editor_font_size, 14);
    assert_eq!(s.editor_font_family, "JetBrains Mono, Consolas, monospace");
    assert_eq!(s.tab_size, 2);
    assert!(!s.word_wrap);
    assert!(s.line_numbers);
    assert!(s.minimap);
    assert_eq!(s.theme, "dark");
    assert!(s.live_preview);
    assert_eq!(s.preview_font_size, 16);
    assert!(!s.auto_save);
    assert_eq!(s.auto_save_delay, 5000);
    assert!(s.window_state.is_none());
    assert!(s.last_directory.is_none());
}

#[test]
fn settings_manager_holds_updates() {
    let mut manager = SettingsManager::new(None);
    let mut s = manager.get_settings();
    assert_eq!(s.theme, "dark");
    s.theme = "light".to_string();
    s.window_state = Some(WindowState { width: 800, height: 600, x: 10, y: 20, maximized: false });
    manager.update_settings(s);
    let got = manager.get_settings();
    assert_eq!(got.theme, "light");
    assert_eq!(got.window_state.unwrap().width, 800);
}

#[test]
fn settings_manager_keeps_loaded_settings() {
    let mut loaded = Settings::default();
    loaded.auto_save = true;
    let manager = SettingsManager::new(Some(loaded));
    assert!(manager.get_settings().auto_save);
}

#[test]
fn recent_files_moves_duplicates_to_front() {
    let mut m = RecentFilesManager::new(None);
    m.add_file("/a");
    m.add_file("/b");
    m.add_file("/a");
    let files = m.all_files();
    assert_eq!(files.as_slice(), ["/a".to_string(), "/b".to_string()]);
}

#[test]
fn recent_files_caps_at_ten() {
    let mut m = RecentFilesManager::new(None);
    for i in 0..12 {
        m.add_file(&format!("/f{}", i));
    }
    let files = m.all_files();
    assert_eq!(files.len(), 10);
    assert_eq!(files[0], "/f11");
    assert_eq!(files[9], "/f2");
}

#[test]
fn recent_files_presence_filter_and_clear() {
    let mut m = RecentFilesManager::new(Some(RecentFilesData {
        files: vec!["/x".to_string(), "/y".to_string(), "/z".to_string()],
    }));
    let present = vec![true, false, true];
    let got = m.get_files(&present);
    assert_eq!(got, vec!["/x".to_string(), "/z".to_string()]);
    m.clear();
    assert!(m.all_files().is_empty());
}

fn user_formula(id: &str, name: &str) -> Formula {
    Formula {
        id: id.to_string(),
        name: name.to_string(),
        description: None,
        latex_content: "x".to_string(),
        lml_content: None,
        category: "math".to_string(),
        subcategory: None,
        tags: vec![],
        is_favorite: false,
        is_system: false,
        usage_count: 0,
        created_at: "2024-01-01T00:00:00+00:00".to_string(),
        updated_at: "2024-01-01T00:00:00+00:00".to_string(),
    }
}

#[test]
fn slugify_cases() {
    assert_eq!(slugify("Quadratic Formula"), "quadratic-formula");
    assert_eq!(slugify("  -- Weird --  Name! "), "weird-name");
    assert_eq!(slugify(""), "");
    assert_eq!(slugify("ABC"), "abc");
    assert_eq!(slugify("a1 B2"), "a1-b2");
}

#[test]
fn seeded_store_has_the_system_set() {
    let seeded = seed_system_formulas();
    assert_eq!(seeded.len(), 41);
    assert!(seeded.iter().all(|f| f.is_system && !f.is_favorite && f.usage_count == 0));
    assert_eq!(seeded[0].name, "Quadratic Formula");
    let lml = seeded[0].lml_content.clone().unwrap();
    assert_eq!(
        lml,
        format!(
            "\n@equation(label: eq:quadratic-formula, mode: display)\n{}\n",
            r"x = \frac{-b \pm \sqrt{b^2 - 4ac}}{2a}"
        )
    );
    let manager = FormulaManager::new(None);
    assert_eq!(manager.get_all().len(), 41);
}

#[test]
fn add_and_get_all() {
    let mut m = FormulaManager::new(Some(FormulaData { formulas: vec![] }));
    let added = m.add(user_formula("u1", "My Formula"));
    assert_eq!(added.id, "u1");
    let all = m.get_all();
    assert_eq!(all.len(), 1);
    assert_eq!(all[0].name, "My Formula");
}

#[test]
fn update_rebuilds_equation_block() {
    let mut m = FormulaManager::new(Some(FormulaData { formulas: vec![user_formula("u1", "Old Name")] }));
    let updates = FormulaUpdate {
        name: Some("New Name".to_string()),
        description: Some("d".to_string()),
        latex_content: Some("y = x".to_string()),
        category: None,
        subcategory: None,
        tags: Some(vec!["t".to_string()]),
    };
    let updated = m.update("u1", updates).expect("user formula must be updatable");
    assert_eq!(updated.name, "New Name");
    assert_eq!(updated.description, Some("d".to_string()));
    assert_eq!(updated.latex_content, "y = x");
    assert_eq!(
        updated.lml_content,
        Some("\n@equation(label: eq:new-name, mode: display)\ny = x\n".to_string())
    );
    assert_eq!(updated.tags, vec!["t".to_string()]);
    assert_eq!(updated.category, "math");
}

#[test]
fn update_skips_system_and_unknown() {
    let mut sys = user_formula("s1", "System");
    sys.is_system = true;
    let mut m = FormulaManager::new(Some(FormulaData { formulas: vec![sys] }));
    let none_updates = FormulaUpdate {
        name: Some("X".to_string()),
        description: None,
        latex_content: None,
        category: None,
        subcategory: None,
        tags: None,
    };
    assert!(m.update("s1", none_updates).is_none());
    let none_updates2 = FormulaUpdate {
        name: None,
        description: None,
        latex_content: None,
        category: None,
        subcategory: None,
        tags: None,
    };
    assert!(m.update("missing", none_updates2).is_none());
}

#[test]
fn remove_spares_system_formulas() {
    let mut sys = user_formula("s1", "System");
    sys.is_system = true;
    let mut m = FormulaManager::new(Some(FormulaData {
        formulas: vec![sys, user_formula("u1", "User")],
    }));
    assert!(!m.remove("s1"));
    assert_eq!(m.get_all().len(), 2);
    assert!(m.remove("u1"));
    assert_eq!(m.get_all().len(), 1);
    assert!(!m.remove("u1"));
}

#[test]
fn toggle_and_usage() {
    let mut m = FormulaManager::new(Some(FormulaData { formulas: vec![user_formula("u1", "F")] }));
    let t = m.toggle_favorite("u1").unwrap();
    assert!(t.is_favorite);
    let t2 = m.toggle_favorite("u1").unwrap();
    assert!(!t2.is_favorite);
    assert!(m.toggle_favorite("nope").is_none());
    let u = m.increment_usage("u1").unwrap();
    assert_eq!(u.usage_count, 1);
    let u2 = m.increment_usage("u1").unwrap();
    assert_eq!(u2.usage_count, 2);
    assert!(m.increment_usage("nope").is_none());
}
