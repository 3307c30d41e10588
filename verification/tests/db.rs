use blog::db::{
    append_comment, create_article, create_giteeuser, find_user_by_giteeid, find_user_by_id,
    get_article, list_article, update_article,
};
use blog::error::BlogError;
use blog::model::{Article, Comment, User, UserInfo};
use blog::oid::ObjectId;
use blog::page::{article_details, index, FindArticle};
use blog::store::Store;

const AUTHOR: &str = "61d70cfa4a138b2ed4f4b001";
const ARTICLE: &str = "61d70cfa4a138b2ed4f4b088";

fn id_of(text: &str) -> ObjectId {
    ObjectId::parse_str(text).unwrap()
}

fn blank_article(id: &str, author: &str) -> Article {
    Article {
        id: id_of(id),
        title: "hello".to_owned(),
        raw_content: "# Head".to_owned(),
        tags: "t".to_owned(),
        author_id: id_of(author),
        created_time: 0,
        updated_time: 0,
        status: 1,
        comments: None,
        total_comments: None,
        author_name: None,
    }
}

fn seeded(comments: usize) -> Store {
    let mut store = Store::new();
    store
        .insert_user(User {
            id: id_of(AUTHOR),
            username: "joey".to_owned(),
            auth_type: "local".to_owned(),
            inner: None,
            created_time: 0,
            updated_time: 0,
            status: 1,
        })
        .unwrap();
    assert_eq!(create_article(blank_article(ARTICLE, AUTHOR), &mut store).unwrap(), ARTICLE);
    for i in 0..comments {
        let c = Comment::new(format!("c{}", i), AUTHOR.to_owned(), "joey".to_owned(), None, None);
        assert!(append_comment(ARTICLE.to_owned(), c, &mut store).unwrap());
    }
    store
}

#[test]
fn get_article_serves_the_requested_page() {
    let store = seeded(45);
    let a = get_article(ARTICLE.to_owned(), Some(20), Some(3), &store).unwrap();
    let texts: Vec<String> = a.comments.unwrap().into_iter().map(|c| c.content).collect();
    assert_eq!(texts, vec!["c40", "c41", "c42", "c43", "c44"]);
    assert_eq!(a.total_comments, Some(45));
    assert_eq!(a.author_name.as_deref(), Some("joey"));
}

#[test]
fn get_article_treats_missing_and_low_pages_as_the_first() {
    let store = seeded(45);
    for page in [None, Some(1), Some(0), Some(-4)] {
        let a = get_article(ARTICLE.to_owned(), Some(20), page, &store).unwrap();
        let comments = a.comments.unwrap();
        assert_eq!(comments.len(), 20);
        assert_eq!(comments[0].content, "c0");
    }
}

#[test]
fn get_article_without_page_size_reads_one_comment() {
    let store = seeded(3);
    let a = get_article(ARTICLE.to_owned(), None, None, &store).unwrap();
    assert_eq!(a.comments.unwrap().len(), 1);
    assert_eq!(a.total_comments, Some(3));
    let a = get_article(ARTICLE.to_owned(), None, Some(3), &store).unwrap();
    assert_eq!(a.comments.unwrap()[0].content, "c2");
}

#[test]
fn get_article_of_unknown_or_malformed_id_is_not_found() {
    let store = seeded(1);
    let r = get_article("61d70cfa4a138b2ed4f4b0ff".to_owned(), Some(20), None, &store);
    assert!(matches!(r, Err(BlogError::NotFound)));
    let r = get_article("xyz".to_owned(), Some(20), None, &store);
    assert!(matches!(r, Err(BlogError::NotFound)));
}

#[test]
fn append_comment_to_unknown_article_reports_false() {
    let mut store = seeded(0);
    let c = Comment::new("x".to_owned(), AUTHOR.to_owned(), "joey".to_owned(), None, None);
    assert!(!append_comment("61d70cfa4a138b2ed4f4b0ff".to_owned(), c, &mut store).unwrap());
    let c = Comment::new("x".to_owned(), AUTHOR.to_owned(), "joey".to_owned(), None, None);
    assert!(!append_comment("not an id".to_owned(), c, &mut store).unwrap());
    assert_eq!(get_article(ARTICLE.to_owned(), Some(20), None, &store).unwrap().total_comments, Some(0));
}

#[test]
fn create_article_twice_fails_the_second_time() {
    let mut store = seeded(0);
    let r = create_article(blank_article(ARTICLE, AUTHOR), &mut store);
    assert!(matches!(r, Err(BlogError::BackendError(_))));
}

#[test]
fn update_article_reports_whether_it_matched() {
    let mut store = seeded(2);
    let mut edited = blank_article(ARTICLE, AUTHOR);
    edited.title = "edited".to_owned();
    assert!(update_article(edited, &mut store).unwrap());
    let a = get_article(ARTICLE.to_owned(), Some(20), None, &store).unwrap();
    assert_eq!(a.title, "edited");
    assert_eq!(a.total_comments, Some(2));
    assert!(a.updated_time >= a.created_time);
    assert!(!update_article(blank_article("61d70cfa4a138b2ed4f4b0ff", AUTHOR), &mut store).unwrap());
}

#[test]
fn list_article_lists_with_counts() {
    let store = seeded(3);
    let list = list_article(&store).unwrap();
    assert_eq!(list.len(), 1);
    assert_eq!(list[0].total_comments, Some(3));
    let views = index(list).unwrap();
    assert_eq!(views.len(), 1);
    assert_eq!(views[0].id, ARTICLE);
    assert_eq!(views[0].author_name, "joey");
    assert!(views[0].comments.is_empty());
}

#[test]
fn list_article_reports_a_missing_author() {
    let mut store = seeded(1);
    create_article(blank_article("61d70cfa4a138b2ed4f4b0aa", "61d70cfa4a138b2ed4f4b0bb"), &mut store)
        .unwrap();
    assert!(matches!(list_article(&store), Err(BlogError::DanglingReference)));
}

#[test]
fn index_fails_on_an_article_that_cannot_be_shown() {
    let r = index(vec![blank_article(ARTICLE, AUTHOR)]);
    assert!(matches!(r, Err(BlogError::DanglingReference)));
    let mut a = blank_article(ARTICLE, AUTHOR);
    a.author_name = Some("joey".to_owned());
    assert!(matches!(index(vec![a]), Err(BlogError::BackendError(_))));
    assert!(index(Vec::new()).unwrap().is_empty());
}

#[test]
fn gitee_users_are_created_and_found() {
    let mut store = seeded(0);
    assert!(matches!(find_user_by_giteeid(&store, 42), Err(BlogError::NotFound)));
    let profile = UserInfo {
        id: 42,
        login: "l".to_owned(),
        name: "Remote".to_owned(),
        avatar_url: String::new(),
        blog: String::new(),
        created_at: String::new(),
        email: None,
    };
    let id = create_giteeuser(&mut store, profile).unwrap();
    assert_eq!(id.len(), 24);
    let found = find_user_by_giteeid(&store, 42).unwrap();
    assert_eq!(found.id.to_hex(), id);
    assert_eq!(found.username, "Remote");
    assert_eq!(found.auth_type, "gitee");
    assert_eq!(find_user_by_id(&id, &store).unwrap().username, "Remote");
    assert!(matches!(find_user_by_id("nope", &store), Err(BlogError::NotFound)));
    assert!(matches!(
        find_user_by_id("61d70cfa4a138b2ed4f4b0ff", &store),
        Err(BlogError::NotFound)
    ));
}

#[test]
fn article_details_builds_the_page() {
    let store = seeded(45);
    let request = FindArticle { id: Some(ARTICLE.to_owned()), comment_page: Some(3) };
    let page = article_details(&request, Some(AUTHOR.to_owned()), &store).unwrap();
    assert_eq!(page.article.comments.len(), 5);
    assert_eq!(page.article.total_comments, 45);
    assert_eq!(page.article.comment_page_nums, vec![1, 2, 3]);
    assert_eq!(page.article.raw_content, "# Head");
    assert!(page.is_author);
    assert_eq!(page.comment_current_page, 3);
    let page = article_details(&request, None, &store).unwrap();
    assert!(!page.is_author);
}

#[test]
fn article_details_of_missing_article_is_not_found() {
    let store = seeded(0);
    let request = FindArticle { id: None, comment_page: None };
    assert!(matches!(article_details(&request, None, &store), Err(BlogError::NotFound)));
    let request = FindArticle { id: Some("61d70cfa4a138b2ed4f4b0ff".to_owned()), comment_page: None };
    assert!(matches!(article_details(&request, None, &store), Err(BlogError::NotFound)));
}
