use judger_client::config::{JobConfigs, JudgeToml, JudgeTomlTestConfig};
use judger_client::judge;
use judger_client::text::{
    copy_option, copy_strings, prefixed, to_low_i32, to_low_u32, to_wrapped_usize,
};

fn entry(image: u32) -> JudgeTomlTestConfig<u32> {
    JudgeTomlTestConfig {
        image,
        build: Some(vec!["make".to_string()]),
        run: vec!["a".to_string(), "b".to_string()],
    }
}

#[test]
fn entries_by_name() {
    let a = "a".to_string();
    let b = "b".to_string();
    let c = "c".to_string();
    let mut jobs = JobConfigs::new();
    assert!(jobs.insert(a.clone(), entry(1)).is_none());
    assert!(jobs.insert(b.clone(), entry(2)).is_none());
    assert_eq!(jobs.insert(a.clone(), entry(3)).map(|e| e.image), Some(1));
    assert!(jobs.take(&c).is_none());
    assert_eq!(jobs.take(&a).map(|e| e.image), Some(3));
    assert!(jobs.take(&a).is_none());
    assert_eq!(jobs.take(&b).map(|e| e.image), Some(2));
}

#[test]
fn a_judge_file_can_be_copied() {
    let mut jobs = JobConfigs::new();
    jobs.insert("a".to_string(), entry(1));
    let file = JudgeToml {
        id: "me".to_string(),
        jobs,
    };
    let mut copy = file.clone();
    assert_eq!(copy.id, "me");
    let e = copy.jobs.take(&"a".to_string()).unwrap();
    assert_eq!(e.image, 1);
    assert_eq!(e.build, Some(vec!["make".to_string()]));
    assert_eq!(e.run, vec!["a", "b"]);
}

#[test]
fn plain_judge_descriptions() {
    let head = judge::JudgeToml {
        id: "x".to_string(),
    };
    assert_eq!(head.clone().id, "x");
    let images = vec![
        judge::ImageConfig::Remote("r".to_string()),
        judge::ImageConfig::Dockerfile("d".to_string()),
    ];
    assert!(matches!(&images[0], judge::ImageConfig::Remote(r) if r == "r"));
    assert!(matches!(&images[1], judge::ImageConfig::Dockerfile(d) if d == "d"));
    let job = judge::JobConfig {
        time_limit: 1,
        mem_limit: 2,
        before_exec: vec![vec!["make".to_string()]],
        exec_cmd: vec!["run".to_string()],
    };
    assert_eq!(job.clone().exec_cmd, vec!["run"]);
    assert_eq!(format!("{:?}", judge::JudgeConfig {}), "JudgeConfig");
}

#[test]
fn texts_and_numbers() {
    assert_eq!(prefixed("a: ", "b"), "a: b");
    assert_eq!(copy_option(&Some("x".to_string())), Some("x".to_string()));
    assert_eq!(copy_option(&None), None);
    assert_eq!(copy_strings(&vec!["x".to_string()]), vec!["x"]);
    assert!(copy_strings(&vec![]).is_empty());
    assert_eq!(to_low_u32(7), 7);
    assert_eq!(to_low_i32(7), 7);
    assert_eq!(to_low_i32(0x7fff_ffff), i32::MAX);
    assert_eq!(to_low_i32(0x8000_0000), i32::MIN);
    assert_eq!(to_wrapped_usize(5), 5);
    assert_eq!(to_wrapped_usize(0), 0);
    assert_eq!(to_wrapped_usize(-1), usize::MAX);
    assert_eq!(to_wrapped_usize(i32::MIN), i32::MIN as usize);
}
